//! The screen that creates a command.
use vstd::prelude::*;
use crate::coordinator::Positive;
use crate::forms::{
    edits_after, empty_text, form_inputs_after, fresh_form, inputs_holding, is_form_edit,
    lemma_filling_two_fields, lemma_typed_messages_are_edits, two_typed, CommandForm,
    CommandFormView, NewCommandFormParameters,
};
use crate::message::Message;
use crate::parameters::LIST_WORKSPACE_COMMANDS_PAGE_SIZE;
use crate::params::{
    CreateWorkspaceCommandParams, CreateWorkspaceCommandParamsView, ListWorkspaceCommandsParams,
    ListWorkspaceCommandsParamsView,
};
use crate::presenters::{CommandPresenter, WorkspacePresenter};
use crate::routes::{route_view, Route, RouteView, WorkspaceCommandsRouteView, WorkspacesRouteView};
use crate::status_bar::{StatusBar, StatusBarView};
use crate::theme::Theme;

verus! {

/// The screen that creates a command.
pub struct NewWorkspaceCommandModel {
    status_bar: StatusBar,
    form: CommandForm,
    redirect: Option<Route>,
    theme: Theme,
}

/// The workspace the command is for.
pub struct NewWorkspaceCommandModelParameters {
    pub workspace: WorkspacePresenter,
    pub theme: Theme,
}

/// The screen, as a value: the form and where it asks to go.
pub struct NewWorkspaceCommandModelView {
    pub form: CommandFormView,
    pub redirect: Option<RouteView>,
    pub status_bar: StatusBarView,
    pub theme: Theme,
}

impl View for NewWorkspaceCommandModel {
    type V = NewWorkspaceCommandModelView;

    closed spec fn view(&self) -> NewWorkspaceCommandModelView {
        NewWorkspaceCommandModelView {
            form: self.form@,
            redirect: route_view(self.redirect),
            status_bar: self.status_bar@,
            theme: self.theme,
        }
    }
}

/// Back to the commands of the workspace, with no search.
pub open spec fn back_route(form: CommandFormView) -> RouteView {
    RouteView::Workspaces(
        WorkspacesRouteView::Commands(
            WorkspaceCommandsRouteView::List(
                ListWorkspaceCommandsParamsView {
                    workspace_id: form.workspace_id,
                    search_query: empty_text(),
                    page_number: Some(1),
                    page_size: Some(LIST_WORKSPACE_COMMANDS_PAGE_SIZE),
                    powershell_no_exit: false,
                },
            ),
        ),
    )
}

/// Creating the command as typed.
pub open spec fn submit_route(form: CommandFormView) -> RouteView {
    RouteView::Workspaces(
        WorkspacesRouteView::Commands(
            WorkspaceCommandsRouteView::Create(
                CreateWorkspaceCommandParamsView {
                    name: form.inputs.text(0),
                    program: form.inputs.text(1),
                    workspace_id: form.workspace_id,
                },
            ),
        ),
    )
}

/// The screen after a message.
pub open spec fn update(s: NewWorkspaceCommandModelView, m: Message) -> NewWorkspaceCommandModelView {
    if is_form_edit(m) {
        NewWorkspaceCommandModelView {
            form: CommandFormView { inputs: form_inputs_after(s.form.inputs, m), ..s.form },
            ..s
        }
    } else {
        match m {
            Message::Cancel => NewWorkspaceCommandModelView { redirect: Some(back_route(s.form)), ..s },
            Message::Submit => NewWorkspaceCommandModelView { redirect: Some(submit_route(s.form)), ..s },
            _ => s,
        }
    }
}

/// The screen after a run of messages, one after the other.
pub open spec fn after_messages(s: NewWorkspaceCommandModelView, ms: Seq<Message>) -> NewWorkspaceCommandModelView
    decreases ms.len(),
{
    if ms.len() == 0 {
        s
    } else {
        update(after_messages(s, ms.drop_last()), ms.last())
    }
}

/// Messages that only edit the form change only its inputs, as they change
/// the inputs of any form.
pub proof fn lemma_edits_reach_only_the_form(s: NewWorkspaceCommandModelView, ms: Seq<Message>)
    requires
        forall|i: int| 0 <= i < ms.len() ==> is_form_edit(#[trigger] ms[i]),
    ensures
        after_messages(s, ms) == (NewWorkspaceCommandModelView { form: CommandFormView { inputs: edits_after(s.form.inputs, ms), ..s.form }, ..s }),
    decreases ms.len(),
{
    if ms.len() > 0 {
        assert forall|i: int| 0 <= i < ms.drop_last().len() implies is_form_edit(#[trigger] ms.drop_last()[i]) by {
            assert(ms.drop_last()[i] == ms[i]);
        }
        lemma_edits_reach_only_the_form(s, ms.drop_last());
        assert(is_form_edit(ms[ms.len() - 1]));
    }
}

/// Submitting after a run of edits submits the form those edits left.
proof fn lemma_submit_after_edits(s: NewWorkspaceCommandModelView, ms: Seq<Message>)
    requires
        forall|i: int| 0 <= i < ms.len() ==> is_form_edit(#[trigger] ms[i]),
    ensures
        after_messages(s, ms.push(Message::Submit))
            == update(NewWorkspaceCommandModelView { form: CommandFormView { inputs: edits_after(s.form.inputs, ms), ..s.form }, ..s }, Message::Submit),
{
    assert(ms.push(Message::Submit).drop_last() =~= ms);
    lemma_edits_reach_only_the_form(s, ms);
}

/// A command typed into the empty form is created as typed: its name is
/// what was typed first, its program what was typed after Tab, and it
/// belongs to the form's workspace.
pub proof fn lemma_new_command_creates_what_was_typed(
    s: NewWorkspaceCommandModelView,
    name: Seq<char>,
    program: Seq<char>,
)
    requires
        s.form.inputs.inputs == inputs_holding(seq![empty_text(), empty_text()]),
        s.form.inputs.active == 0,
        name.len() < usize::MAX,
        program.len() < usize::MAX,
    ensures
        after_messages(s, two_typed(name, program).push(Message::Submit)).redirect == Some(
            RouteView::Workspaces(
                WorkspacesRouteView::Commands(
                    WorkspaceCommandsRouteView::Create(
                        CreateWorkspaceCommandParamsView {
                            name,
                            program,
                            workspace_id: s.form.workspace_id,
                        },
                    ),
                ),
            ),
        ),
{
    lemma_typed_messages_are_edits(name, program, Seq::empty());
    lemma_submit_after_edits(s, two_typed(name, program));
    assert(s.form.inputs.inputs =~= fresh_form(2).inputs);
    lemma_filling_two_fields(name, program);
}


impl NewWorkspaceCommandModel {
    /// The screen with an empty form for a command of the workspace.
    pub fn new(parameters: NewWorkspaceCommandModelParameters) -> (r: NewWorkspaceCommandModel)
        ensures
            r@.form.inputs.inputs == inputs_holding(seq![empty_text(), empty_text()]),
            r@.form.inputs.active == 0,
            r@.form.workspace_id == parameters.workspace.id,
            r@.redirect is None,
            r@.theme == parameters.theme,
            r@.form.theme == parameters.theme,
            r@.status_bar == (StatusBarView {
                operation: Some("New command"@),
                workspace: Some(parameters.workspace.name@),
                command: None,
                page: None,
                selector: None,
                pwsh: None,
                search: None,
            }),
    {
        let NewWorkspaceCommandModelParameters { workspace, theme } = parameters;
        let status_bar = StatusBar::builder().operation("New command").workspace(
            workspace.name.as_str(),
        ).build();
        NewWorkspaceCommandModel {
            form: CommandForm::new(NewCommandFormParameters { workspace_id: workspace.id, theme }),
            redirect: None,
            status_bar,
            theme,
        }
    }

    /// The route the screen asks for, handed over once.
    pub fn redirect(&mut self) -> (r: Option<Route>)
        ensures
            route_view(r) == old(self)@.redirect,
            final(self)@ == (NewWorkspaceCommandModelView { redirect: None, ..old(self)@ }),
    {
        self.redirect.take()
    }

    /// The status line of the screen.
    pub fn status_bar(&self) -> (r: &StatusBar)
        ensures
            r@ == self@.status_bar,
    {
        &self.status_bar
    }

    /// The form of the screen.
    pub fn form(&self) -> (r: &CommandForm)
        ensures
            r@ == self@.form,
    {
        &self.form
    }

    /// The theme of the screen.
    pub fn theme(&self) -> (r: Theme)
        ensures
            r == self@.theme,
    {
        self.theme
    }

    /// Handles a message: Esc goes back, Enter creates the command, Tab and
    /// the editing keys act on the form.
    pub fn update(&mut self, message: Message)
        ensures
            final(self)@ == update(old(self)@, message),
    {
        match message {
            Message::Cancel => self.back(),
            Message::DeleteAllChars => self.delete_all_chars(),
            Message::DeleteChar => self.delete_char(),
            Message::EnterChar(c) => self.enter_char(c),
            Message::MoveCusorLeft => self.move_cursor_left(),
            Message::MoveCusorRight => self.move_cursor_right(),
            Message::Submit => self.submit(),
            Message::Tab => self.toggle_focus(),
            Message::ExecuteCommand | Message::SelectNext | Message::SelectPrevious => {},
        }
    }

    fn back(&mut self)
        ensures
            final(self)@ == update(old(self)@, Message::Cancel),
    {
        let command = self.form.command();
        self.redirect = Some(
            Route::from(
                ListWorkspaceCommandsParams {
                    workspace_id: command.workspace_id,
                    search_query: String::new(),
                    page_number: Positive::new(1),
                    page_size: Positive::new(LIST_WORKSPACE_COMMANDS_PAGE_SIZE),
                    powershell_no_exit: false,
                },
            ),
        );
    }

    fn toggle_focus(&mut self)
        ensures
            final(self)@ == update(old(self)@, Message::Tab),
    {
        self.form.select_next_input();
    }

    fn enter_char(&mut self, c: char)
        ensures
            final(self)@ == update(old(self)@, Message::EnterChar(c)),
    {
        self.form.enter_char(c);
    }

    fn delete_char(&mut self)
        ensures
            final(self)@ == update(old(self)@, Message::DeleteChar),
    {
        self.form.delete_char();
    }

    fn delete_all_chars(&mut self)
        ensures
            final(self)@ == update(old(self)@, Message::DeleteAllChars),
    {
        self.form.delete_all_chars();
    }

    fn move_cursor_left(&mut self)
        ensures
            final(self)@ == update(old(self)@, Message::MoveCusorLeft),
    {
        self.form.move_cursor_left();
    }

    fn move_cursor_right(&mut self)
        ensures
            final(self)@ == update(old(self)@, Message::MoveCusorRight),
    {
        self.form.move_cursor_right();
    }

    fn submit(&mut self)
        ensures
            final(self)@ == update(old(self)@, Message::Submit),
    {
        let CommandPresenter { id: _, name, program, workspace_id } = self.form.command();
        self.redirect = Some(Route::from(CreateWorkspaceCommandParams { workspace_id, name, program }));
    }
}

} // verus!
