//! The screen that edits a command.
use vstd::prelude::*;
use crate::coordinator::Positive;
use crate::forms::{
    command_form_of, edits_after, form_inputs_after, is_form_edit, lemma_typed_messages_are_edits,
    lemma_typing_into_loaded_form, typing, CommandForm, CommandFormView,
    EditCommandFormParameters,
};
use crate::message::Message;
use crate::parameters::LIST_WORKSPACE_COMMANDS_PAGE_SIZE;
use crate::params::{
    ListWorkspaceCommandsParams, ListWorkspaceCommandsParamsView, UpdateWorkspaceCommandParams,
    UpdateWorkspaceCommandParamsView,
};
use crate::presenters::{CommandPresenter, CommandPresenterView, WorkspacePresenter};
use crate::routes::{route_view, Route, RouteView, WorkspaceCommandsRouteView, WorkspacesRouteView};
use crate::status_bar::{StatusBar, StatusBarView};
use crate::theme::Theme;

verus! {

/// The screen that edits a command.
pub struct EditWorkspaceCommandModel {
    status_bar: StatusBar,
    form: CommandForm,
    redirect: Option<Route>,
    theme: Theme,
}

/// What the screen edits.
pub struct EditWorkspaceCommandModelParameters {
    pub command: CommandPresenter,
    pub workspace: WorkspacePresenter,
    pub theme: Theme,
}

/// The screen, as a value: the form and where it asks to go.
pub struct EditWorkspaceCommandModelView {
    pub form: CommandFormView,
    pub redirect: Option<RouteView>,
    pub status_bar: StatusBarView,
    pub theme: Theme,
}

impl View for EditWorkspaceCommandModel {
    type V = EditWorkspaceCommandModelView;

    closed spec fn view(&self) -> EditWorkspaceCommandModelView {
        EditWorkspaceCommandModelView {
            form: self.form@,
            redirect: route_view(self.redirect),
            status_bar: self.status_bar@,
            theme: self.theme,
        }
    }
}

/// Back to the commands of the workspace, searching for the program.
pub open spec fn back_route(form: CommandFormView) -> RouteView {
    RouteView::Workspaces(
        WorkspacesRouteView::Commands(
            WorkspaceCommandsRouteView::List(
                ListWorkspaceCommandsParamsView {
                    workspace_id: form.workspace_id,
                    search_query: form.inputs.text(1),
                    page_number: Some(1),
                    page_size: Some(LIST_WORKSPACE_COMMANDS_PAGE_SIZE),
                    powershell_no_exit: false,
                },
            ),
        ),
    )
}

/// Saving the command as typed.
pub open spec fn submit_route(form: CommandFormView) -> RouteView {
    RouteView::Workspaces(
        WorkspacesRouteView::Commands(
            WorkspaceCommandsRouteView::Update(
                UpdateWorkspaceCommandParamsView {
                    command_id: form.id,
                    name: form.inputs.text(0),
                    program: form.inputs.text(1),
                    workspace_id: form.workspace_id,
                },
            ),
        ),
    )
}

/// The screen after a message.
pub open spec fn update(s: EditWorkspaceCommandModelView, m: Message) -> EditWorkspaceCommandModelView {
    if is_form_edit(m) {
        EditWorkspaceCommandModelView {
            form: CommandFormView { inputs: form_inputs_after(s.form.inputs, m), ..s.form },
            ..s
        }
    } else {
        match m {
            Message::Cancel => EditWorkspaceCommandModelView { redirect: Some(back_route(s.form)), ..s },
            Message::Submit => EditWorkspaceCommandModelView { redirect: Some(submit_route(s.form)), ..s },
            _ => s,
        }
    }
}

/// Submitting asks to save exactly what the form holds, and leaves the form
/// as it is; a form not yet edited holds the command as it was handed in, so
/// it asks to save that command unchanged.
pub proof fn lemma_submit_saves_the_form(s: EditWorkspaceCommandModelView, name: Seq<char>, program: Seq<char>)
    requires
        s.form.inputs.inputs == crate::forms::inputs_holding(seq![name, program]),
    ensures
        update(s, Message::Submit).form == s.form,
        update(s, Message::Submit).redirect == Some(
            RouteView::Workspaces(
                WorkspacesRouteView::Commands(
                    WorkspaceCommandsRouteView::Update(
                        UpdateWorkspaceCommandParamsView {
                            command_id: s.form.id,
                            name,
                            program,
                            workspace_id: s.form.workspace_id,
                        },
                    ),
                ),
            ),
        ),
{
    assert(s.form.inputs.text(0) == name);
    assert(s.form.inputs.text(1) == program);
}

/// The screen after a run of messages, one after the other.
pub open spec fn after_messages(s: EditWorkspaceCommandModelView, ms: Seq<Message>) -> EditWorkspaceCommandModelView
    decreases ms.len(),
{
    if ms.len() == 0 {
        s
    } else {
        update(after_messages(s, ms.drop_last()), ms.last())
    }
}

/// Messages that only edit the form change only its inputs, as they change
/// the inputs of any form.
pub proof fn lemma_edits_reach_only_the_form(s: EditWorkspaceCommandModelView, ms: Seq<Message>)
    requires
        forall|i: int| 0 <= i < ms.len() ==> is_form_edit(#[trigger] ms[i]),
    ensures
        after_messages(s, ms) == (EditWorkspaceCommandModelView { form: CommandFormView { inputs: edits_after(s.form.inputs, ms), ..s.form }, ..s }),
    decreases ms.len(),
{
    if ms.len() > 0 {
        assert forall|i: int| 0 <= i < ms.drop_last().len() implies is_form_edit(#[trigger] ms.drop_last()[i]) by {
            assert(ms.drop_last()[i] == ms[i]);
        }
        lemma_edits_reach_only_the_form(s, ms.drop_last());
        assert(is_form_edit(ms[ms.len() - 1]));
    }
}

/// Submitting after a run of edits submits the form those edits left.
proof fn lemma_submit_after_edits(s: EditWorkspaceCommandModelView, ms: Seq<Message>)
    requires
        forall|i: int| 0 <= i < ms.len() ==> is_form_edit(#[trigger] ms[i]),
    ensures
        after_messages(s, ms.push(Message::Submit))
            == update(EditWorkspaceCommandModelView { form: CommandFormView { inputs: edits_after(s.form.inputs, ms), ..s.form }, ..s }, Message::Submit),
{
    assert(ms.push(Message::Submit).drop_last() =~= ms);
    lemma_edits_reach_only_the_form(s, ms);
}

/// A command opened for editing is saved back unchanged, and text typed
/// right after opening it goes at the end of its name: saving then asks to
/// update the command with that name and its program unchanged.
pub proof fn lemma_typing_after_opening_edits_the_name(
    s: EditWorkspaceCommandModelView,
    c: CommandPresenterView,
    more: Seq<char>,
)
    requires
        s.form.inputs == command_form_of(c),
        c.name.len() + more.len() < usize::MAX,
    ensures
        update(s, Message::Submit).redirect == Some(
            RouteView::Workspaces(
                WorkspacesRouteView::Commands(
                    WorkspaceCommandsRouteView::Update(
                        UpdateWorkspaceCommandParamsView {
                            command_id: s.form.id,
                            name: c.name,
                            program: c.program,
                            workspace_id: s.form.workspace_id,
                        },
                    ),
                ),
            ),
        ),
        after_messages(s, typing(more).push(Message::Submit)).redirect == Some(
            RouteView::Workspaces(
                WorkspacesRouteView::Commands(
                    WorkspaceCommandsRouteView::Update(
                        UpdateWorkspaceCommandParamsView {
                            command_id: s.form.id,
                            name: c.name + more,
                            program: c.program,
                            workspace_id: s.form.workspace_id,
                        },
                    ),
                ),
            ),
        ),
{
    lemma_typed_messages_are_edits(more, Seq::empty(), Seq::empty());
    lemma_submit_after_edits(s, typing(more));
    lemma_typing_into_loaded_form(seq![c.name, c.program], more);
    let f = edits_after(s.form.inputs, typing(more));
    assert(f.text(1) == seq![c.name, c.program][1]);
}


impl EditWorkspaceCommandModel {
    /// The screen editing the command, its name and program in the form.
    pub fn new(parameters: EditWorkspaceCommandModelParameters) -> (r: EditWorkspaceCommandModel)
        ensures
            r@.form.inputs == command_form_of(parameters.command@),
            r@.form.id == parameters.command.id,
            r@.form.workspace_id == parameters.command.workspace_id,
            r@.redirect is None,
            r@.theme == parameters.theme,
            r@.form.theme == parameters.theme,
            r@.status_bar == (StatusBarView {
                operation: Some("Edit command"@),
                workspace: Some(parameters.workspace.name@),
                command: Some(parameters.command.name@),
                page: None,
                selector: None,
                pwsh: None,
                search: None,
            }),
    {
        let EditWorkspaceCommandModelParameters { command, workspace, theme } = parameters;
        let status_bar = StatusBar::builder().operation("Edit command").workspace(
            workspace.name.as_str(),
        ).command(command.name.as_str()).build();
        EditWorkspaceCommandModel {
            status_bar,
            redirect: None,
            form: CommandForm::edit(EditCommandFormParameters { command, theme }),
            theme,
        }
    }

    /// The route the screen asks for, handed over once.
    pub fn redirect(&mut self) -> (r: Option<Route>)
        ensures
            route_view(r) == old(self)@.redirect,
            final(self)@ == (EditWorkspaceCommandModelView { redirect: None, ..old(self)@ }),
    {
        self.redirect.take()
    }

    /// The status line of the screen.
    pub fn status_bar(&self) -> (r: &StatusBar)
        ensures
            r@ == self@.status_bar,
    {
        &self.status_bar
    }

    /// The form of the screen.
    pub fn form(&self) -> (r: &CommandForm)
        ensures
            r@ == self@.form,
    {
        &self.form
    }

    /// The theme of the screen.
    pub fn theme(&self) -> (r: Theme)
        ensures
            r == self@.theme,
    {
        self.theme
    }

    /// Handles a message: Esc goes back, Enter saves, Tab and the editing
    /// keys act on the form.
    pub fn update(&mut self, message: Message)
        ensures
            final(self)@ == update(old(self)@, message),
    {
        match message {
            Message::Cancel => self.back(),
            Message::Tab => self.toggle_focus(),
            Message::DeleteAllChars => self.delete_all_chars(),
            Message::DeleteChar => self.delete_char(),
            Message::EnterChar(c) => self.enter_char(c),
            Message::MoveCusorLeft => self.move_cursor_left(),
            Message::MoveCusorRight => self.move_cursor_right(),
            Message::Submit => self.submit(),
            Message::ExecuteCommand | Message::SelectNext | Message::SelectPrevious => {},
        }
    }

    fn back(&mut self)
        ensures
            final(self)@ == (EditWorkspaceCommandModelView { redirect: Some(back_route(old(self)@.form)), ..old(self)@ }),
    {
        let command = self.form.command();
        self.redirect = Some(
            Route::from(
                ListWorkspaceCommandsParams {
                    workspace_id: command.workspace_id,
                    search_query: command.program,
                    page_number: Positive::new(1),
                    page_size: Positive::new(LIST_WORKSPACE_COMMANDS_PAGE_SIZE),
                    powershell_no_exit: false,
                },
            ),
        );
    }

    fn delete_char(&mut self)
        ensures
            final(self)@ == update(old(self)@, Message::DeleteChar),
    {
        self.form.delete_char();
    }

    fn delete_all_chars(&mut self)
        ensures
            final(self)@ == update(old(self)@, Message::DeleteAllChars),
    {
        self.form.delete_all_chars();
    }

    fn enter_char(&mut self, c: char)
        ensures
            final(self)@ == update(old(self)@, Message::EnterChar(c)),
    {
        self.form.enter_char(c);
    }

    fn move_cursor_left(&mut self)
        ensures
            final(self)@ == update(old(self)@, Message::MoveCusorLeft),
    {
        self.form.move_cursor_left();
    }

    fn move_cursor_right(&mut self)
        ensures
            final(self)@ == update(old(self)@, Message::MoveCusorRight),
    {
        self.form.move_cursor_right();
    }

    /// Asks to save the command as the form now holds it.
    pub fn submit(&mut self)
        ensures
            final(self)@ == (EditWorkspaceCommandModelView { redirect: Some(submit_route(old(self)@.form)), ..old(self)@ }),
    {
        let CommandPresenter { id, name, program, workspace_id } = self.form.command();
        self.redirect = Some(
            Route::from(UpdateWorkspaceCommandParams { name, program, workspace_id, command_id: id }),
        );
    }

    fn toggle_focus(&mut self)
        ensures
            final(self)@ == update(old(self)@, Message::Tab),
    {
        self.form.select_next_input();
    }
}

} // verus!
