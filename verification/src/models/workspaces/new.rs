//! The screen that creates a workspace.
use vstd::prelude::*;
use crate::forms::{
    edits_after, empty_text, form_inputs_after, fresh_form, inputs_holding, is_form_edit,
    lemma_filling_two_fields, lemma_typed_messages_are_edits, two_typed,
    NewWorkspaceFormParameters, WorkspaceForm, WorkspaceFormView,
};
use crate::message::Message;
use crate::params::{
    CreateWorkspaceParams, CreateWorkspaceParamsView, ListWorkspacesParams, ListWorkspacesParamsView,
};
use crate::presenters::WorkspacePresenter;
use crate::routes::{route_view, Route, RouteView, WorkspacesRouteView};
use crate::status_bar::{StatusBar, StatusBarView};
use crate::theme::Theme;

verus! {

/// The screen that creates a workspace.
pub struct NewWorkspaceModel {
    status_bar: StatusBar,
    form: WorkspaceForm,
    redirect: Option<Route>,
    theme: Theme,
}

/// How to draw the screen.
pub struct NewWorkspaceModelParameters {
    pub theme: Theme,
}

/// The screen, as a value: the form and where it asks to go.
pub struct NewWorkspaceModelView {
    pub form: WorkspaceFormView,
    pub redirect: Option<RouteView>,
    pub status_bar: StatusBarView,
    pub theme: Theme,
}

impl View for NewWorkspaceModel {
    type V = NewWorkspaceModelView;

    closed spec fn view(&self) -> NewWorkspaceModelView {
        NewWorkspaceModelView {
            form: self.form@,
            redirect: route_view(self.redirect),
            status_bar: self.status_bar@,
            theme: self.theme,
        }
    }
}

/// Back to the first page of workspaces, with no search.
pub open spec fn back_route() -> RouteView {
    RouteView::Workspaces(
        WorkspacesRouteView::List(
            ListWorkspacesParamsView { search_query: None, page_number: Some(1), page_size: Some(100) },
        ),
    )
}

/// Creating the workspace as typed.
pub open spec fn submit_route(form: WorkspaceFormView) -> RouteView {
    RouteView::Workspaces(
        WorkspacesRouteView::Create(
            CreateWorkspaceParamsView { name: form.inputs.text(0), location: form.inputs.text(1) },
        ),
    )
}

/// The screen after a message.
pub open spec fn update(s: NewWorkspaceModelView, m: Message) -> NewWorkspaceModelView {
    if is_form_edit(m) {
        NewWorkspaceModelView {
            form: WorkspaceFormView { inputs: form_inputs_after(s.form.inputs, m), ..s.form },
            ..s
        }
    } else {
        match m {
            Message::Cancel => NewWorkspaceModelView { redirect: Some(back_route()), ..s },
            Message::Submit => NewWorkspaceModelView { redirect: Some(submit_route(s.form)), ..s },
            _ => s,
        }
    }
}

/// The screen after a run of messages, one after the other.
pub open spec fn after_messages(s: NewWorkspaceModelView, ms: Seq<Message>) -> NewWorkspaceModelView
    decreases ms.len(),
{
    if ms.len() == 0 {
        s
    } else {
        update(after_messages(s, ms.drop_last()), ms.last())
    }
}

/// Messages that only edit the form change only its inputs, as they change
/// the inputs of any form.
pub proof fn lemma_edits_reach_only_the_form(s: NewWorkspaceModelView, ms: Seq<Message>)
    requires
        forall|i: int| 0 <= i < ms.len() ==> is_form_edit(#[trigger] ms[i]),
    ensures
        after_messages(s, ms) == (NewWorkspaceModelView { form: WorkspaceFormView { inputs: edits_after(s.form.inputs, ms), ..s.form }, ..s }),
    decreases ms.len(),
{
    if ms.len() > 0 {
        assert forall|i: int| 0 <= i < ms.drop_last().len() implies is_form_edit(#[trigger] ms.drop_last()[i]) by {
            assert(ms.drop_last()[i] == ms[i]);
        }
        lemma_edits_reach_only_the_form(s, ms.drop_last());
        assert(is_form_edit(ms[ms.len() - 1]));
    }
}

/// Submitting after a run of edits submits the form those edits left.
proof fn lemma_submit_after_edits(s: NewWorkspaceModelView, ms: Seq<Message>)
    requires
        forall|i: int| 0 <= i < ms.len() ==> is_form_edit(#[trigger] ms[i]),
    ensures
        after_messages(s, ms.push(Message::Submit))
            == update(NewWorkspaceModelView { form: WorkspaceFormView { inputs: edits_after(s.form.inputs, ms), ..s.form }, ..s }, Message::Submit),
{
    assert(ms.push(Message::Submit).drop_last() =~= ms);
    lemma_edits_reach_only_the_form(s, ms);
}

/// A workspace typed into the empty form is created as typed: its name is
/// what was typed first, its location what was typed after Tab.
pub proof fn lemma_new_workspace_creates_what_was_typed(
    s: NewWorkspaceModelView,
    name: Seq<char>,
    location: Seq<char>,
)
    requires
        s.form.inputs.inputs == inputs_holding(seq![empty_text(), empty_text()]),
        s.form.inputs.active == 0,
        name.len() < usize::MAX,
        location.len() < usize::MAX,
    ensures
        after_messages(s, two_typed(name, location).push(Message::Submit)).redirect == Some(
            RouteView::Workspaces(WorkspacesRouteView::Create(CreateWorkspaceParamsView { name, location })),
        ),
{
    lemma_typed_messages_are_edits(name, location, Seq::empty());
    lemma_submit_after_edits(s, two_typed(name, location));
    assert(s.form.inputs.inputs =~= fresh_form(2).inputs);
    lemma_filling_two_fields(name, location);
}


impl NewWorkspaceModel {
    /// The screen with an empty form.
    pub fn new(parameters: NewWorkspaceModelParameters) -> (r: NewWorkspaceModel)
        ensures
            r@.form.inputs.inputs == inputs_holding(seq![empty_text(), empty_text()]),
            r@.form.inputs.active == 0,
            r@.redirect is None,
            r@.theme == parameters.theme,
            r@.form.theme == parameters.theme,
            r@.status_bar == (StatusBarView {
                operation: Some("New workspace"@),
                workspace: None,
                command: None,
                page: None,
                selector: None,
                pwsh: None,
                search: None,
            }),
    {
        let NewWorkspaceModelParameters { theme } = parameters;
        let status_bar = StatusBar::builder().operation("New workspace").build();
        NewWorkspaceModel {
            status_bar,
            form: WorkspaceForm::new(NewWorkspaceFormParameters { theme }),
            redirect: None,
            theme,
        }
    }

    /// The route the screen asks for, handed over once.
    pub fn redirect(&mut self) -> (r: Option<Route>)
        ensures
            route_view(r) == old(self)@.redirect,
            final(self)@ == (NewWorkspaceModelView { redirect: None, ..old(self)@ }),
    {
        self.redirect.take()
    }

    /// The status line of the screen.
    pub fn status_bar(&self) -> (r: &StatusBar)
        ensures
            r@ == self@.status_bar,
    {
        &self.status_bar
    }

    /// The form of the screen.
    pub fn form(&self) -> (r: &WorkspaceForm)
        ensures
            r@ == self@.form,
    {
        &self.form
    }

    /// The theme of the screen.
    pub fn theme(&self) -> (r: Theme)
        ensures
            r == self@.theme,
    {
        self.theme
    }

    /// Handles a message: Esc goes back, Enter creates the workspace, Tab
    /// and the editing keys act on the form.
    pub fn update(&mut self, message: Message)
        ensures
            final(self)@ == update(old(self)@, message),
    {
        match message {
            Message::Cancel => self.back(),
            Message::DeleteAllChars => self.delete_all_chars(),
            Message::DeleteChar => self.delete_char(),
            Message::EnterChar(c) => self.enter_char(c),
            Message::MoveCusorLeft => self.move_cursor_left(),
            Message::MoveCusorRight => self.move_cursor_right(),
            Message::Submit => self.submit(),
            Message::Tab => self.toggle_focus(),
            Message::ExecuteCommand | Message::SelectNext | Message::SelectPrevious => {},
        }
    }

    fn back(&mut self)
        ensures
            final(self)@ == update(old(self)@, Message::Cancel),
    {
        self.redirect = Some(Route::from(ListWorkspacesParams::default()));
    }

    fn delete_all_chars(&mut self)
        ensures
            final(self)@ == update(old(self)@, Message::DeleteAllChars),
    {
        self.form.delete_all_chars();
    }

    fn delete_char(&mut self)
        ensures
            final(self)@ == update(old(self)@, Message::DeleteChar),
    {
        self.form.delete_char();
    }

    fn enter_char(&mut self, c: char)
        ensures
            final(self)@ == update(old(self)@, Message::EnterChar(c)),
    {
        self.form.enter_char(c);
    }

    fn move_cursor_left(&mut self)
        ensures
            final(self)@ == update(old(self)@, Message::MoveCusorLeft),
    {
        self.form.move_cursor_left();
    }

    fn move_cursor_right(&mut self)
        ensures
            final(self)@ == update(old(self)@, Message::MoveCusorRight),
    {
        self.form.move_cursor_right();
    }

    fn submit(&mut self)
        ensures
            final(self)@ == update(old(self)@, Message::Submit),
    {
        let WorkspacePresenter { id: _, name, location } = self.form.workspace();
        self.redirect = Some(Route::from(CreateWorkspaceParams { name, location }));
    }

    fn toggle_focus(&mut self)
        ensures
            final(self)@ == update(old(self)@, Message::Tab),
    {
        self.form.select_next_input();
    }
}

} // verus!
