//! The form that creates or edits a command of a workspace.
use vstd::prelude::*;
use crate::coordinator::{CommandId, Workspace, WorkspaceId};
use crate::input::{Input, InputView};
use crate::message::Message;
use crate::models::command::Command;
use crate::params::{
    CreateWorkspaceCommandParams, CreateWorkspaceCommandParamsView, ExecuteProgramParams,
    ExecuteProgramParamsView, ListWorkspaceCommandsParams, ListWorkspaceCommandsParamsView,
    UpdateWorkspaceCommandParams, UpdateWorkspaceCommandParamsView,
};
use crate::routes::{
    route_view, PowerShellRouteView, Route, RouteView, WorkspaceCommandsRouteView,
    WorkspacesRouteView,
};
use crate::theme::Theme;

verus! {

/// The two inputs of the form.
#[derive(Clone, Copy, Debug, PartialEq, Eq, Structural)]
pub enum InputName {
    Name,
    Program,
}

impl InputName {
    /// The position of the input on screen.
    pub fn as_index(&self) -> (r: usize)
        ensures
            r == (if *self == InputName::Name { 0usize } else { 1usize }),
    {
        match self {
            InputName::Name => 0,
            InputName::Program => 1,
        }
    }

    /// The label of the input.
    pub fn as_str(&self) -> (r: &'static str)
        ensures
            *self == InputName::Name ==> r@ == "Name"@,
            *self == InputName::Program ==> r@ == "Program"@,
    {
        match self {
            InputName::Name => "Name",
            InputName::Program => "Program",
        }
    }

    /// The input that Tab moves the focus to.
    pub fn next(&self) -> (r: InputName)
        ensures
            r == next_input(*self),
    {
        match self {
            InputName::Name => InputName::Program,
            InputName::Program => InputName::Name,
        }
    }
}

/// Tab moves the focus from the name to the program and back.
pub open spec fn next_input(i: InputName) -> InputName {
    match i {
        InputName::Name => InputName::Program,
        InputName::Program => InputName::Name,
    }
}

/// The form that creates a command of a workspace, or edits one.
pub struct CommandModel {
    active_input: InputName,
    id: Option<CommandId>,
    name: Input,
    program: Input,
    redirect: Option<Route>,
    theme: Theme,
    workspace: Workspace,
}

/// The form, as a value.
pub struct CommandModelView {
    pub active_input: InputName,
    /// The command being edited; `None` while a new one is typed.
    pub id: Option<CommandId>,
    pub name: InputView,
    pub program: InputView,
    pub redirect: Option<RouteView>,
    pub theme: Theme,
    pub workspace_id: WorkspaceId,
    pub workspace_name: Seq<char>,
    pub workspace_location: Seq<char>,
}

impl View for CommandModel {
    type V = CommandModelView;

    closed spec fn view(&self) -> CommandModelView {
        CommandModelView {
            active_input: self.active_input,
            id: self.id,
            name: self.name@,
            program: self.program@,
            redirect: route_view(self.redirect),
            theme: self.theme,
            workspace_id: self.workspace.id,
            workspace_name: self.workspace.name@,
            workspace_location: self.workspace.location@,
        }
    }
}

/// The focused input after `f`, the other unchanged.
pub open spec fn edit_active(s: CommandModelView, f: spec_fn(InputView) -> InputView) -> CommandModelView {
    match s.active_input {
        InputName::Name => CommandModelView { name: f(s.name), ..s },
        InputName::Program => CommandModelView { program: f(s.program), ..s },
    }
}

/// Back to the commands of the workspace: no search, default paging.
pub open spec fn back_route(s: CommandModelView) -> RouteView {
    RouteView::Workspaces(
        WorkspacesRouteView::Commands(
            WorkspaceCommandsRouteView::List(
                ListWorkspaceCommandsParamsView {
                    workspace_id: s.workspace_id,
                    search_query: Seq::empty(),
                    page_number: None,
                    page_size: None,
                    powershell_no_exit: false,
                },
            ),
        ),
    )
}

/// Saving: an update of the command being edited, or the creation of a new one.
pub open spec fn submit_route(s: CommandModelView) -> RouteView {
    match s.id {
        Some(id) => RouteView::Workspaces(
            WorkspacesRouteView::Commands(
                WorkspaceCommandsRouteView::Update(
                    UpdateWorkspaceCommandParamsView {
                        command_id: id,
                        name: s.name.text,
                        program: s.program.text,
                        workspace_id: s.workspace_id,
                    },
                ),
            ),
        ),
        None => RouteView::Workspaces(
            WorkspacesRouteView::Commands(
                WorkspaceCommandsRouteView::Create(
                    CreateWorkspaceCommandParamsView {
                        name: s.name.text,
                        program: s.program.text,
                        workspace_id: s.workspace_id,
                    },
                ),
            ),
        ),
    }
}

/// Running the program as typed, in the workspace.
pub open spec fn execute_route(s: CommandModelView) -> RouteView {
    RouteView::Powershell(
        PowerShellRouteView::ExecuteProgram(
            ExecuteProgramParamsView { workspace_id: s.workspace_id, program: s.program.text },
        ),
    )
}

/// The form after a message.
pub open spec fn update(s: CommandModelView, m: Message) -> CommandModelView {
    match m {
        Message::Cancel => CommandModelView { redirect: Some(back_route(s)), ..s },
        Message::Tab => CommandModelView { active_input: next_input(s.active_input), ..s },
        Message::DeleteAllChars => edit_active(s, |v: InputView| v.delete_all_chars()),
        Message::DeleteChar => edit_active(s, |v: InputView| v.delete_char()),
        Message::EnterChar(c) => edit_active(s, |v: InputView| v.enter_char(c)),
        Message::MoveCusorLeft => edit_active(s, |v: InputView| v.move_cursor_left()),
        Message::MoveCusorRight => edit_active(s, |v: InputView| v.move_cursor_right()),
        Message::Submit => CommandModelView { redirect: Some(submit_route(s)), ..s },
        Message::ExecuteCommand => CommandModelView { redirect: Some(execute_route(s)), ..s },
        Message::SelectNext | Message::SelectPrevious => s,
    }
}

impl CommandModel {
    /// An empty form for a new command of `workspace`, the focus on the name.
    pub fn new(workspace: Workspace) -> (r: CommandModel)
        ensures
            r@.theme.is_uniform(),
            r@.active_input == InputName::Name,
            r@.id is None,
            r@.name == InputView::with_text(Seq::empty()),
            r@.program == InputView::with_text(Seq::empty()),
            r@.redirect is None,
            r@.workspace_id == workspace.id,
            r@.workspace_name == workspace.name@,
            r@.workspace_location == workspace.location@,
    {
        CommandModel {
            workspace,
            redirect: None,
            theme: Theme::plain(),
            active_input: InputName::Name,
            name: Input::empty(),
            program: Input::empty(),
            id: None,
        }
    }

    /// The form editing `command`: its name and program typed in, its
    /// identifier kept for the update.
    pub fn command(self, command: Command) -> (r: CommandModel)
        ensures
            r@ == (CommandModelView {
                name: InputView::with_text(command.name@),
                program: InputView::with_text(command.program@),
                id: Some(command.id),
                ..self@
            }),
    {
        let Command { workspace_id: _, id, name, program } = command;
        CommandModel { name: Input::new(name), program: Input::new(program), id: Some(id), ..self }
    }

    /// The form drawn with `theme`.
    pub fn theme(self, theme: Theme) -> (r: CommandModel)
        ensures
            r@ == (CommandModelView { theme, ..self@ }),
    {
        CommandModel { theme, ..self }
    }

    /// The route the form asks for, handed over once.
    pub fn redirect(&mut self) -> (r: Option<Route>)
        ensures
            route_view(r) == old(self)@.redirect,
            final(self)@ == (CommandModelView { redirect: None, ..old(self)@ }),
    {
        self.redirect.take()
    }

    /// The input that has the focus.
    pub fn active_input(&self) -> (r: &Input)
        ensures
            r@ == (if self@.active_input == InputName::Name { self@.name } else { self@.program }),
    {
        match self.active_input {
            InputName::Name => &self.name,
            InputName::Program => &self.program,
        }
    }

    /// Handles a message: Esc goes back, Tab moves the focus, the editing
    /// keys edit the focused input, Enter saves and the run key runs the
    /// program.
    pub fn update(&mut self, message: Message)
        ensures
            final(self)@ == update(old(self)@, message),
    {
        match message {
            Message::Cancel => self.back(),
            Message::Tab => self.toggle_focus(),
            Message::DeleteAllChars => self.delete_all_chars(),
            Message::DeleteChar => self.delete_char(),
            Message::EnterChar(c) => self.enter_char(c),
            Message::MoveCusorLeft => self.move_cursor_left(),
            Message::MoveCusorRight => self.move_cursor_right(),
            Message::Submit => self.submit(),
            Message::ExecuteCommand => self.execute_program(),
            Message::SelectNext | Message::SelectPrevious => {},
        }
    }

    fn back(&mut self)
        ensures
            final(self)@ == (CommandModelView { redirect: Some(back_route(old(self)@)), ..old(self)@ }),
    {
        self.redirect = Some(
            Route::from(
                ListWorkspaceCommandsParams {
                    search_query: String::new(),
                    page_number: None,
                    page_size: None,
                    workspace_id: self.workspace.id,
                    powershell_no_exit: false,
                },
            ),
        );
    }

    fn create_command_parameters(&self) -> (r: CreateWorkspaceCommandParams)
        ensures
            r@ == (CreateWorkspaceCommandParamsView {
                name: self@.name.text,
                program: self@.program.text,
                workspace_id: self@.workspace_id,
            }),
    {
        CreateWorkspaceCommandParams {
            name: self.name.value(),
            program: self.program.value(),
            workspace_id: self.workspace.id,
        }
    }

    fn update_command_parameters(&self, id: CommandId) -> (r: UpdateWorkspaceCommandParams)
        ensures
            r@ == (UpdateWorkspaceCommandParamsView {
                command_id: id,
                name: self@.name.text,
                program: self@.program.text,
                workspace_id: self@.workspace_id,
            }),
    {
        UpdateWorkspaceCommandParams {
            name: self.name.value(),
            program: self.program.value(),
            workspace_id: self.workspace.id,
            command_id: id,
        }
    }

    fn delete_char(&mut self)
        ensures
            final(self)@ == update(old(self)@, Message::DeleteChar),
    {
        match self.active_input {
            InputName::Name => self.name.delete_char(),
            InputName::Program => self.program.delete_char(),
        }
    }

    fn delete_all_chars(&mut self)
        ensures
            final(self)@ == update(old(self)@, Message::DeleteAllChars),
    {
        match self.active_input {
            InputName::Name => self.name.delete_all_chars(),
            InputName::Program => self.program.delete_all_chars(),
        }
    }

    fn enter_char(&mut self, c: char)
        ensures
            final(self)@ == update(old(self)@, Message::EnterChar(c)),
    {
        match self.active_input {
            InputName::Name => self.name.enter_char(c),
            InputName::Program => self.program.enter_char(c),
        }
    }

    fn move_cursor_left(&mut self)
        ensures
            final(self)@ == update(old(self)@, Message::MoveCusorLeft),
    {
        match self.active_input {
            InputName::Name => self.name.move_cursor_left(),
            InputName::Program => self.program.move_cursor_left(),
        }
    }

    fn move_cursor_right(&mut self)
        ensures
            final(self)@ == update(old(self)@, Message::MoveCusorRight),
    {
        match self.active_input {
            InputName::Name => self.name.move_cursor_right(),
            InputName::Program => self.program.move_cursor_right(),
        }
    }

    fn execute_program(&mut self)
        ensures
            final(self)@ == (CommandModelView { redirect: Some(execute_route(old(self)@)), ..old(self)@ }),
    {
        self.redirect = Some(
            Route::from(
                ExecuteProgramParams { workspace_id: self.workspace.id, program: self.program.value() },
            ),
        );
    }

    fn submit(&mut self)
        ensures
            final(self)@ == (CommandModelView { redirect: Some(submit_route(old(self)@)), ..old(self)@ }),
    {
        let route = match self.id {
            Some(id) => Route::from(self.update_command_parameters(id)),
            None => Route::from(self.create_command_parameters()),
        };
        self.redirect = Some(route);
    }

    fn toggle_focus(&mut self)
        ensures
            final(self)@ == update(old(self)@, Message::Tab),
    {
        self.active_input = self.active_input.next();
    }
}

} // verus!
