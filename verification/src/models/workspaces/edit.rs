//! The form that edits a workspace of the screens that pass identifiers
//! as text.
use vstd::prelude::*;
use crate::forms::{
    edits_after, form_inputs_after, inputs_holding, is_form_edit, lemma_typed_messages_are_edits,
    lemma_typing_into_loaded_form, two_values, typing, FormInputs, FormInputsView,
};
use crate::message::Message;
use crate::parameters::{workspaces::list, UpdateWorkspaceParameters, UpdateWorkspaceParametersView};
use crate::presenters::workspace::{Presenter, PresenterView};
use crate::routes::{screen_route_view, workspaces, ScreenRoute, ScreenRouteView};
use crate::text::owned;

verus! {

/// The workspace form: the name and the location.
pub struct Model {
    form: FormInputs,
    id: String,
    breadcrumbs: Vec<String>,
    redirect: Option<ScreenRoute>,
}

/// The workspace to edit.
pub struct ModelParameters {
    pub workspace: Presenter,
}

/// The form, as a value.
pub struct ModelView {
    pub form: FormInputsView,
    pub id: Seq<char>,
    pub breadcrumbs: Seq<Seq<char>>,
    pub redirect: Option<ScreenRouteView>,
}

impl View for Model {
    type V = ModelView;

    closed spec fn view(&self) -> ModelView {
        ModelView {
            form: self.form@,
            id: self.id@,
            breadcrumbs: self.breadcrumbs@.map_values(|s: String| s@),
            redirect: screen_route_view(self.redirect),
        }
    }
}

/// Back to the first page of workspaces, searching for the name typed.
pub open spec fn back_route(s: ModelView) -> ScreenRouteView {
    ScreenRouteView::Workspaces(
        workspaces::RouteView::List(
            list::ParametersView { search_query: s.form.text(0), page_number: 0, page_size: list::PAGE_SIZE },
        ),
    )
}

/// Saving the workspace as typed.
pub open spec fn submit_route(s: ModelView) -> ScreenRouteView {
    ScreenRouteView::Workspaces(
        workspaces::RouteView::Update(
            UpdateWorkspaceParametersView { id: s.id, name: s.form.text(0), location: s.form.text(1) },
        ),
    )
}

/// The form after a message.
pub open spec fn update(s: ModelView, m: Message) -> ModelView {
    if is_form_edit(m) {
        ModelView { form: form_inputs_after(s.form, m), ..s }
    } else {
        match m {
            Message::Cancel => ModelView { redirect: Some(back_route(s)), ..s },
            Message::Submit => ModelView { redirect: Some(submit_route(s)), ..s },
            _ => s,
        }
    }
}

/// The inputs of the form opened on a workspace: its name, then its
/// location (empty when it has none), the focus on the name.
pub open spec fn form_of(w: PresenterView) -> FormInputsView {
    FormInputsView { inputs: inputs_holding(seq![w.name, location_of(w)]), active: 0 }
}

/// The location of a workspace as text: empty when it has none.
pub open spec fn location_of(w: PresenterView) -> Seq<char> {
    match w.location {
        Some(l) => l,
        None => Seq::empty(),
    }
}

/// The screen after a run of messages, one after the other.
pub open spec fn after_messages(s: ModelView, ms: Seq<Message>) -> ModelView
    decreases ms.len(),
{
    if ms.len() == 0 {
        s
    } else {
        update(after_messages(s, ms.drop_last()), ms.last())
    }
}

/// Messages that only edit the form change only its inputs, as they change
/// the inputs of any form.
pub proof fn lemma_edits_reach_only_the_form(s: ModelView, ms: Seq<Message>)
    requires
        forall|i: int| 0 <= i < ms.len() ==> is_form_edit(#[trigger] ms[i]),
    ensures
        after_messages(s, ms) == (ModelView { form: edits_after(s.form, ms), ..s }),
    decreases ms.len(),
{
    if ms.len() > 0 {
        assert forall|i: int| 0 <= i < ms.drop_last().len() implies is_form_edit(#[trigger] ms.drop_last()[i]) by {
            assert(ms.drop_last()[i] == ms[i]);
        }
        lemma_edits_reach_only_the_form(s, ms.drop_last());
        assert(is_form_edit(ms[ms.len() - 1]));
    }
}

/// Submitting after a run of edits submits the form those edits left.
proof fn lemma_submit_after_edits(s: ModelView, ms: Seq<Message>)
    requires
        forall|i: int| 0 <= i < ms.len() ==> is_form_edit(#[trigger] ms[i]),
    ensures
        after_messages(s, ms.push(Message::Submit))
            == update(ModelView { form: edits_after(s.form, ms), ..s }, Message::Submit),
{
    assert(ms.push(Message::Submit).drop_last() =~= ms);
    lemma_edits_reach_only_the_form(s, ms);
}

/// A workspace opened for editing is saved back unchanged, and text typed
/// right after opening it goes at the end of its name, its location
/// unchanged.
pub proof fn lemma_edited_workspace_keeps_its_fields(
    s: ModelView,
    w: PresenterView,
    more: Seq<char>,
)
    requires
        s.form == form_of(w),
        w.name.len() + more.len() < usize::MAX,
    ensures
        update(s, Message::Submit).redirect == Some(
            ScreenRouteView::Workspaces(
                workspaces::RouteView::Update(
                    UpdateWorkspaceParametersView { id: s.id, name: w.name, location: location_of(w) },
                ),
            ),
        ),
        after_messages(s, typing(more).push(Message::Submit)).redirect == Some(
            ScreenRouteView::Workspaces(
                workspaces::RouteView::Update(
                    UpdateWorkspaceParametersView { id: s.id, name: w.name + more, location: location_of(w) },
                ),
            ),
        ),
{
    lemma_typed_messages_are_edits(more, Seq::empty(), Seq::empty());
    lemma_submit_after_edits(s, typing(more));
    lemma_typing_into_loaded_form(seq![w.name, location_of(w)], more);
    let f = edits_after(s.form, typing(more));
    assert(f.text(1) == seq![w.name, location_of(w)][1]);
}


impl Model {
    /// The form holding the workspace's name and location (empty when it
    /// has none), the focus on the name.
    pub fn new(parameters: ModelParameters) -> (r: Model)
        ensures
            r@.form == form_of(parameters.workspace@),
            r@.id == parameters.workspace.id@,
            r@.breadcrumbs == seq!["List workspaces"@, parameters.workspace.name@, "Edit workspace"@],
            r@.redirect is None,
    {
        let ModelParameters { workspace } = parameters;
        let Presenter { id, location, name } = workspace;
        let mut breadcrumbs: Vec<String> = Vec::new();
        breadcrumbs.push(owned("List workspaces"));
        breadcrumbs.push(owned(name.as_str()));
        breadcrumbs.push(owned("Edit workspace"));
        proof {
            assert(breadcrumbs@.map_values(|s: String| s@) =~= seq!["List workspaces"@, name@, "Edit workspace"@]);
        }
        let location = match location {
            Some(l) => l,
            None => String::new(),
        };
        Model { form: FormInputs::new(two_values(name, location)), id, breadcrumbs, redirect: None }
    }

    /// The route the form asks for, handed over once.
    pub fn redirect(&mut self) -> (r: Option<ScreenRoute>)
        ensures
            screen_route_view(r) == old(self)@.redirect,
            final(self)@ == (ModelView { redirect: None, ..old(self)@ }),
    {
        self.redirect.take()
    }

    /// The inputs of the form.
    pub fn form(&self) -> (r: &FormInputs)
        ensures
            r@ == self@.form,
    {
        &self.form
    }

    /// The path to the form, shown on the status line.
    pub fn breadcrumbs(&self) -> (r: &Vec<String>)
        ensures
            r@.map_values(|s: String| s@) == self@.breadcrumbs,
    {
        &self.breadcrumbs
    }

    /// Handles a message: Esc goes back, Enter saves, Tab and the editing
    /// keys act on the form.
    pub fn update(&mut self, message: Message)
        ensures
            final(self)@ == update(old(self)@, message),
    {
        match message {
            Message::Cancel => {
                self.redirect = Some(
                    ScreenRoute::Workspaces(
                        workspaces::Route::List(
                            list::Parameters { search_query: self.form.value(0), page_number: 0, page_size: list::PAGE_SIZE },
                        ),
                    ),
                );
            },
            Message::Tab => self.form.select_next_input(),
            Message::DeleteAllChars => self.form.delete_all_chars(),
            Message::DeleteChar => self.form.delete_char(),
            Message::EnterChar(c) => self.form.enter_char(c),
            Message::MoveCusorLeft => self.form.move_cursor_left(),
            Message::MoveCusorRight => self.form.move_cursor_right(),
            Message::Submit => {
                self.redirect = Some(
                    ScreenRoute::Workspaces(
                        workspaces::Route::Update(
                            UpdateWorkspaceParameters {
                                name: self.form.value(0),
                                location: self.form.value(1),
                                id: owned(self.id.as_str()),
                            },
                        ),
                    ),
                );
            },
            Message::ExecuteCommand | Message::SelectNext | Message::SelectPrevious => {},
        }
    }
}

} // verus!
