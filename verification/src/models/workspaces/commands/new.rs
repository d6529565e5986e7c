//! The form that adds a command to a workspace, on the screens that pass
//! identifiers as text.
use vstd::prelude::*;
use crate::forms::{
    edits_after, form_inputs_after, fresh_form, inputs_holding, is_form_edit,
    lemma_filling_two_fields, lemma_typed_messages_are_edits, two_typed, two_values, FormInputs,
    FormInputsView,
};
use crate::message::Message;
use crate::parameters::{
    workspaces::commands::list::PAGE_SIZE, CreateWorkspaceCommandParameters,
    CreateWorkspaceCommandParametersView, ListWorkspaceCommandsParameters,
    ListWorkspaceCommandsParametersView,
};
use crate::presenters::workspace::Presenter;
use crate::routes::{screen_route_view, workspaces, ScreenRoute, ScreenRouteView};
use crate::text::owned;

verus! {

/// The command form: the name and the program.
pub struct Model {
    form: FormInputs,
    workspace_id: String,
    breadcrumbs: Vec<String>,
    redirect: Option<ScreenRoute>,
}

/// The workspace to add a command to.
pub struct ModelParameters {
    pub workspace: Presenter,
}

/// The form, as a value.
pub struct ModelView {
    pub form: FormInputsView,
    pub workspace_id: Seq<char>,
    pub breadcrumbs: Seq<Seq<char>>,
    pub redirect: Option<ScreenRouteView>,
}

impl View for Model {
    type V = ModelView;

    closed spec fn view(&self) -> ModelView {
        ModelView {
            form: self.form@,
            workspace_id: self.workspace_id@,
            breadcrumbs: self.breadcrumbs@.map_values(|s: String| s@),
            redirect: screen_route_view(self.redirect),
        }
    }
}

/// Back to the first page of the workspace's commands, with no search.
pub open spec fn back_route(s: ModelView) -> ScreenRouteView {
    ScreenRouteView::Workspaces(
        workspaces::RouteView::Commands(
            workspaces::commands::RouteView::List(
                ListWorkspaceCommandsParametersView {
                    workspace_id: s.workspace_id,
                    search_query: Seq::empty(),
                    page_number: 0,
                    page_size: PAGE_SIZE,
                    powershell_no_exit: false,
                },
            ),
        ),
    )
}

/// Creating the command as typed.
pub open spec fn submit_route(s: ModelView) -> ScreenRouteView {
    ScreenRouteView::Workspaces(
        workspaces::RouteView::Commands(
            workspaces::commands::RouteView::Create(
                CreateWorkspaceCommandParametersView {
                    workspace_id: s.workspace_id,
                    name: s.form.text(0),
                    program: s.form.text(1),
                },
            ),
        ),
    )
}

/// The form after a message.
pub open spec fn update(s: ModelView, m: Message) -> ModelView {
    if is_form_edit(m) {
        ModelView { form: form_inputs_after(s.form, m), ..s }
    } else {
        match m {
            Message::Cancel => ModelView { redirect: Some(back_route(s)), ..s },
            Message::Submit => ModelView { redirect: Some(submit_route(s)), ..s },
            _ => s,
        }
    }
}

/// The screen after a run of messages, one after the other.
pub open spec fn after_messages(s: ModelView, ms: Seq<Message>) -> ModelView
    decreases ms.len(),
{
    if ms.len() == 0 {
        s
    } else {
        update(after_messages(s, ms.drop_last()), ms.last())
    }
}

/// Messages that only edit the form change only its inputs, as they change
/// the inputs of any form.
pub proof fn lemma_edits_reach_only_the_form(s: ModelView, ms: Seq<Message>)
    requires
        forall|i: int| 0 <= i < ms.len() ==> is_form_edit(#[trigger] ms[i]),
    ensures
        after_messages(s, ms) == (ModelView { form: edits_after(s.form, ms), ..s }),
    decreases ms.len(),
{
    if ms.len() > 0 {
        assert forall|i: int| 0 <= i < ms.drop_last().len() implies is_form_edit(#[trigger] ms.drop_last()[i]) by {
            assert(ms.drop_last()[i] == ms[i]);
        }
        lemma_edits_reach_only_the_form(s, ms.drop_last());
        assert(is_form_edit(ms[ms.len() - 1]));
    }
}

/// Submitting after a run of edits submits the form those edits left.
proof fn lemma_submit_after_edits(s: ModelView, ms: Seq<Message>)
    requires
        forall|i: int| 0 <= i < ms.len() ==> is_form_edit(#[trigger] ms[i]),
    ensures
        after_messages(s, ms.push(Message::Submit))
            == update(ModelView { form: edits_after(s.form, ms), ..s }, Message::Submit),
{
    assert(ms.push(Message::Submit).drop_last() =~= ms);
    lemma_edits_reach_only_the_form(s, ms);
}

/// A command typed into the empty form is created as typed: its name is
/// what was typed first, its program what was typed after Tab.
pub proof fn lemma_new_command_creates_what_was_typed(s: ModelView, name: Seq<char>, program: Seq<char>)
    requires
        s.form.inputs == inputs_holding(seq![Seq::<char>::empty(), Seq::<char>::empty()]),
        s.form.active == 0,
        name.len() < usize::MAX,
        program.len() < usize::MAX,
    ensures
        after_messages(s, two_typed(name, program).push(Message::Submit)).redirect == Some(
            ScreenRouteView::Workspaces(
                workspaces::RouteView::Commands(
                    workspaces::commands::RouteView::Create(
                        CreateWorkspaceCommandParametersView { workspace_id: s.workspace_id, name, program },
                    ),
                ),
            ),
        ),
{
    lemma_typed_messages_are_edits(name, program, Seq::empty());
    lemma_submit_after_edits(s, two_typed(name, program));
    assert(s.form.inputs =~= fresh_form(2).inputs);
    lemma_filling_two_fields(name, program);
}


impl Model {
    /// An empty form for a new command of `workspace`.
    pub fn new(parameters: ModelParameters) -> (r: Model)
        ensures
            r@.form.inputs == inputs_holding(seq![Seq::<char>::empty(), Seq::<char>::empty()]),
            r@.form.active == 0,
            r@.workspace_id == parameters.workspace.id@,
            r@.breadcrumbs == seq!["List workspaces"@, parameters.workspace.name@, "New command"@],
            r@.redirect is None,
    {
        let ModelParameters { workspace } = parameters;
        let mut breadcrumbs: Vec<String> = Vec::new();
        breadcrumbs.push(owned("List workspaces"));
        breadcrumbs.push(owned(workspace.name.as_str()));
        breadcrumbs.push(owned("New command"));
        proof {
            assert(breadcrumbs@.map_values(|s: String| s@) =~= seq![
                "List workspaces"@,
                workspace.name@,
                "New command"@,
            ]);
        }
        Model {
            form: FormInputs::new(two_values(String::new(), String::new())),
            workspace_id: workspace.id,
            breadcrumbs,
            redirect: None,
        }
    }

    /// The route the form asks for, handed over once.
    pub fn redirect(&mut self) -> (r: Option<ScreenRoute>)
        ensures
            screen_route_view(r) == old(self)@.redirect,
            final(self)@ == (ModelView { redirect: None, ..old(self)@ }),
    {
        self.redirect.take()
    }

    /// The inputs of the form.
    pub fn form(&self) -> (r: &FormInputs)
        ensures
            r@ == self@.form,
    {
        &self.form
    }

    /// The path to the form, shown on the status line.
    pub fn breadcrumbs(&self) -> (r: &Vec<String>)
        ensures
            r@.map_values(|s: String| s@) == self@.breadcrumbs,
    {
        &self.breadcrumbs
    }

    /// Handles a message: Esc goes back, Enter creates the command, Tab and
    /// the editing keys act on the form.
    pub fn update(&mut self, message: Message)
        ensures
            final(self)@ == update(old(self)@, message),
    {
        match message {
            Message::Cancel => {
                self.redirect = Some(
                    ScreenRoute::Workspaces(
                        workspaces::Route::Commands(
                            workspaces::commands::Route::List(
                                ListWorkspaceCommandsParameters {
                                    workspace_id: owned(self.workspace_id.as_str()),
                                    search_query: String::new(),
                                    page_number: 0,
                                    page_size: PAGE_SIZE,
                                    powershell_no_exit: false,
                                },
                            ),
                        ),
                    ),
                );
            },
            Message::Tab => self.form.select_next_input(),
            Message::DeleteAllChars => self.form.delete_all_chars(),
            Message::DeleteChar => self.form.delete_char(),
            Message::EnterChar(c) => self.form.enter_char(c),
            Message::MoveCusorLeft => self.form.move_cursor_left(),
            Message::MoveCusorRight => self.form.move_cursor_right(),
            Message::Submit => {
                self.redirect = Some(
                    ScreenRoute::Workspaces(
                        workspaces::Route::Commands(
                            workspaces::commands::Route::Create(
                                CreateWorkspaceCommandParameters {
                                    workspace_id: owned(self.workspace_id.as_str()),
                                    name: self.form.value(0),
                                    program: self.form.value(1),
                                },
                            ),
                        ),
                    ),
                );
            },
            Message::ExecuteCommand | Message::SelectNext | Message::SelectPrevious => {},
        }
    }
}

} // verus!
