//! The screen that edits a workspace.
use vstd::prelude::*;
use crate::coordinator::Positive;
use crate::forms::{
    edits_after, form_inputs_after, inputs_holding, is_form_edit, lemma_typed_messages_are_edits,
    lemma_typing_into_loaded_form, typing, workspace_form_of, EditWorkspaceFormParameters, WorkspaceForm,
    WorkspaceFormView,
};
use crate::message::Message;
use crate::parameters::LIST_WORKSPACES_PAGE_SIZE;
use crate::params::{
    ListWorkspacesParams, ListWorkspacesParamsView, UpdateWorkspaceParams, UpdateWorkspaceParamsView,
};
use crate::presenters::{WorkspacePresenter, WorkspacePresenterView};
use crate::routes::{route_view, Route, RouteView, WorkspacesRouteView};
use crate::status_bar::{StatusBar, StatusBarView};
use crate::theme::Theme;

verus! {

/// The screen that edits a workspace.
pub struct EditWorkspaceModel {
    form: WorkspaceForm,
    status_bar: StatusBar,
    redirect: Option<Route>,
    theme: Theme,
}

/// The workspace to edit.
pub struct EditWorkspaceModelParameters {
    pub workspace: WorkspacePresenter,
    pub theme: Theme,
}

/// The screen, as a value: the form and where it asks to go.
pub struct EditWorkspaceModelView {
    pub form: WorkspaceFormView,
    pub redirect: Option<RouteView>,
    pub status_bar: StatusBarView,
    pub theme: Theme,
}

impl View for EditWorkspaceModel {
    type V = EditWorkspaceModelView;

    closed spec fn view(&self) -> EditWorkspaceModelView {
        EditWorkspaceModelView {
            form: self.form@,
            redirect: route_view(self.redirect),
            status_bar: self.status_bar@,
            theme: self.theme,
        }
    }
}

/// Back to the workspaces, searching for the name typed.
pub open spec fn back_route(form: WorkspaceFormView) -> RouteView {
    RouteView::Workspaces(
        WorkspacesRouteView::List(
            ListWorkspacesParamsView {
                search_query: Some(form.inputs.text(0)),
                page_number: Some(1),
                page_size: Some(LIST_WORKSPACES_PAGE_SIZE),
            },
        ),
    )
}

/// Saving the workspace as typed.
pub open spec fn submit_route(form: WorkspaceFormView) -> RouteView {
    RouteView::Workspaces(
        WorkspacesRouteView::Update(
            UpdateWorkspaceParamsView {
                id: form.id,
                name: form.inputs.text(0),
                location: form.inputs.text(1),
            },
        ),
    )
}

/// The screen after a message.
pub open spec fn update(s: EditWorkspaceModelView, m: Message) -> EditWorkspaceModelView {
    if is_form_edit(m) {
        EditWorkspaceModelView {
            form: WorkspaceFormView { inputs: form_inputs_after(s.form.inputs, m), ..s.form },
            ..s
        }
    } else {
        match m {
            Message::Cancel => EditWorkspaceModelView { redirect: Some(back_route(s.form)), ..s },
            Message::Submit => EditWorkspaceModelView { redirect: Some(submit_route(s.form)), ..s },
            _ => s,
        }
    }
}

/// The screen after a run of messages, one after the other.
pub open spec fn after_messages(s: EditWorkspaceModelView, ms: Seq<Message>) -> EditWorkspaceModelView
    decreases ms.len(),
{
    if ms.len() == 0 {
        s
    } else {
        update(after_messages(s, ms.drop_last()), ms.last())
    }
}

/// Messages that only edit the form change only its inputs, as they change
/// the inputs of any form.
pub proof fn lemma_edits_reach_only_the_form(s: EditWorkspaceModelView, ms: Seq<Message>)
    requires
        forall|i: int| 0 <= i < ms.len() ==> is_form_edit(#[trigger] ms[i]),
    ensures
        after_messages(s, ms) == (EditWorkspaceModelView { form: WorkspaceFormView { inputs: edits_after(s.form.inputs, ms), ..s.form }, ..s }),
    decreases ms.len(),
{
    if ms.len() > 0 {
        assert forall|i: int| 0 <= i < ms.drop_last().len() implies is_form_edit(#[trigger] ms.drop_last()[i]) by {
            assert(ms.drop_last()[i] == ms[i]);
        }
        lemma_edits_reach_only_the_form(s, ms.drop_last());
        assert(is_form_edit(ms[ms.len() - 1]));
    }
}

/// Submitting after a run of edits submits the form those edits left.
proof fn lemma_submit_after_edits(s: EditWorkspaceModelView, ms: Seq<Message>)
    requires
        forall|i: int| 0 <= i < ms.len() ==> is_form_edit(#[trigger] ms[i]),
    ensures
        after_messages(s, ms.push(Message::Submit))
            == update(EditWorkspaceModelView { form: WorkspaceFormView { inputs: edits_after(s.form.inputs, ms), ..s.form }, ..s }, Message::Submit),
{
    assert(ms.push(Message::Submit).drop_last() =~= ms);
    lemma_edits_reach_only_the_form(s, ms);
}

/// A workspace opened for editing is saved back unchanged, and text typed
/// right after opening it goes at the end of its name, its location
/// unchanged.
pub proof fn lemma_edited_workspace_keeps_its_fields(
    s: EditWorkspaceModelView,
    w: WorkspacePresenterView,
    more: Seq<char>,
)
    requires
        s.form.inputs == workspace_form_of(w),
        w.name.len() + more.len() < usize::MAX,
    ensures
        update(s, Message::Submit).redirect == Some(
            RouteView::Workspaces(
                WorkspacesRouteView::Update(
                    UpdateWorkspaceParamsView { id: s.form.id, name: w.name, location: w.location },
                ),
            ),
        ),
        after_messages(s, typing(more).push(Message::Submit)).redirect == Some(
            RouteView::Workspaces(
                WorkspacesRouteView::Update(
                    UpdateWorkspaceParamsView { id: s.form.id, name: w.name + more, location: w.location },
                ),
            ),
        ),
{
    lemma_typed_messages_are_edits(more, Seq::empty(), Seq::empty());
    lemma_submit_after_edits(s, typing(more));
    lemma_typing_into_loaded_form(seq![w.name, w.location], more);
    let f = edits_after(s.form.inputs, typing(more));
    assert(f.text(1) == seq![w.name, w.location][1]);
}


impl EditWorkspaceModel {
    /// The screen editing the workspace, its name and location in the form.
    pub fn new(parameters: EditWorkspaceModelParameters) -> (r: EditWorkspaceModel)
        ensures
            r@.form.inputs == workspace_form_of(parameters.workspace@),
            r@.form.id == parameters.workspace.id,
            r@.redirect is None,
            r@.theme == parameters.theme,
            r@.form.theme == parameters.theme,
            r@.status_bar == (StatusBarView {
                operation: Some("Edit workspace"@),
                workspace: Some(parameters.workspace.name@),
                command: None,
                page: None,
                selector: None,
                pwsh: None,
                search: None,
            }),
    {
        let EditWorkspaceModelParameters { workspace, theme } = parameters;
        let status_bar = StatusBar::builder().operation("Edit workspace").workspace(
            workspace.name.as_str(),
        ).build();
        EditWorkspaceModel {
            redirect: None,
            status_bar,
            form: WorkspaceForm::edit(EditWorkspaceFormParameters { workspace, theme }),
            theme,
        }
    }

    /// The route the screen asks for, handed over once.
    pub fn redirect(&mut self) -> (r: Option<Route>)
        ensures
            route_view(r) == old(self)@.redirect,
            final(self)@ == (EditWorkspaceModelView { redirect: None, ..old(self)@ }),
    {
        self.redirect.take()
    }

    /// The status line of the screen.
    pub fn status_bar(&self) -> (r: &StatusBar)
        ensures
            r@ == self@.status_bar,
    {
        &self.status_bar
    }

    /// The form of the screen.
    pub fn form(&self) -> (r: &WorkspaceForm)
        ensures
            r@ == self@.form,
    {
        &self.form
    }

    /// The theme of the screen.
    pub fn theme(&self) -> (r: Theme)
        ensures
            r == self@.theme,
    {
        self.theme
    }

    /// Handles a message: Esc goes back, Enter saves, Tab and the editing
    /// keys act on the form.
    pub fn update(&mut self, message: Message)
        ensures
            final(self)@ == update(old(self)@, message),
    {
        match message {
            Message::Cancel => self.back(),
            Message::Tab => self.toggle_focus(),
            Message::DeleteAllChars => self.delete_all_chars(),
            Message::DeleteChar => self.delete_char(),
            Message::EnterChar(c) => self.enter_char(c),
            Message::MoveCusorLeft => self.move_cursor_left(),
            Message::MoveCusorRight => self.move_cursor_right(),
            Message::Submit => self.submit(),
            Message::ExecuteCommand | Message::SelectNext | Message::SelectPrevious => {},
        }
    }

    fn back(&mut self)
        ensures
            final(self)@ == update(old(self)@, Message::Cancel),
    {
        let WorkspacePresenter { id: _, name: search_query, location: _ } = self.form.workspace();
        self.redirect = Some(
            Route::from(
                ListWorkspacesParams {
                    search_query: Some(search_query),
                    page_number: Positive::new(1),
                    page_size: Positive::new(LIST_WORKSPACES_PAGE_SIZE),
                },
            ),
        );
    }

    fn delete_char(&mut self)
        ensures
            final(self)@ == update(old(self)@, Message::DeleteChar),
    {
        self.form.delete_char();
    }

    fn delete_all_chars(&mut self)
        ensures
            final(self)@ == update(old(self)@, Message::DeleteAllChars),
    {
        self.form.delete_all_chars();
    }

    fn enter_char(&mut self, c: char)
        ensures
            final(self)@ == update(old(self)@, Message::EnterChar(c)),
    {
        self.form.enter_char(c);
    }

    fn move_cursor_left(&mut self)
        ensures
            final(self)@ == update(old(self)@, Message::MoveCusorLeft),
    {
        self.form.move_cursor_left();
    }

    fn move_cursor_right(&mut self)
        ensures
            final(self)@ == update(old(self)@, Message::MoveCusorRight),
    {
        self.form.move_cursor_right();
    }

    fn submit(&mut self)
        ensures
            final(self)@ == update(old(self)@, Message::Submit),
    {
        let WorkspacePresenter { id, name, location } = self.form.workspace();
        self.redirect = Some(Route::from(UpdateWorkspaceParams { name, location, id }));
    }

    fn toggle_focus(&mut self)
        ensures
            final(self)@ == update(old(self)@, Message::Tab),
    {
        self.form.select_next_input();
    }
}

} // verus!
