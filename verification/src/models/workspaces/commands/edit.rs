//! The form that edits a command, on the screens that pass identifiers as
//! text.
use vstd::prelude::*;
use crate::forms::{
    edits_after, form_inputs_after, inputs_holding, is_form_edit, lemma_typed_messages_are_edits,
    lemma_typing_into_loaded_form, two_values, typing, FormInputs, FormInputsView,
};
use crate::message::Message;
use crate::parameters::{
    workspaces::commands::get, UpdateWorkspaceCommandParameters, UpdateWorkspaceCommandParametersView,
};
use crate::presenters::{command, workspace};
use crate::routes::{screen_route_view, workspaces, ScreenRoute, ScreenRouteView};
use crate::text::owned;

verus! {

/// The command form: the name and the program.
pub struct Model {
    form: FormInputs,
    command_id: String,
    workspace_id: String,
    breadcrumbs: Vec<String>,
    redirect: Option<ScreenRoute>,
}

/// The command to edit and its workspace.
pub struct ModelParameters {
    pub command: command::Presenter,
    pub workspace: workspace::Presenter,
}

/// The form, as a value.
pub struct ModelView {
    pub form: FormInputsView,
    pub command_id: Seq<char>,
    pub workspace_id: Seq<char>,
    pub breadcrumbs: Seq<Seq<char>>,
    pub redirect: Option<ScreenRouteView>,
}

impl View for Model {
    type V = ModelView;

    closed spec fn view(&self) -> ModelView {
        ModelView {
            form: self.form@,
            command_id: self.command_id@,
            workspace_id: self.workspace_id@,
            breadcrumbs: self.breadcrumbs@.map_values(|s: String| s@),
            redirect: screen_route_view(self.redirect),
        }
    }
}

/// Back to the command.
pub open spec fn back_route(s: ModelView) -> ScreenRouteView {
    ScreenRouteView::Workspaces(
        workspaces::RouteView::Commands(
            workspaces::commands::RouteView::Get(
                get::ParametersView { workspace_id: s.workspace_id, command_id: s.command_id },
            ),
        ),
    )
}

/// Saving the command as typed.
pub open spec fn submit_route(s: ModelView) -> ScreenRouteView {
    ScreenRouteView::Workspaces(
        workspaces::RouteView::Commands(
            workspaces::commands::RouteView::Update(
                UpdateWorkspaceCommandParametersView {
                    name: s.form.text(0),
                    program: s.form.text(1),
                    workspace_id: s.workspace_id,
                    command_id: s.command_id,
                },
            ),
        ),
    )
}

/// The form after a message.
pub open spec fn update(s: ModelView, m: Message) -> ModelView {
    if is_form_edit(m) {
        ModelView { form: form_inputs_after(s.form, m), ..s }
    } else {
        match m {
            Message::Cancel => ModelView { redirect: Some(back_route(s)), ..s },
            Message::Submit => ModelView { redirect: Some(submit_route(s)), ..s },
            _ => s,
        }
    }
}

/// The inputs of the form opened on a command: its name, then its program,
/// the focus on the name.
pub open spec fn form_of(c: command::PresenterView) -> FormInputsView {
    FormInputsView { inputs: inputs_holding(seq![c.name, c.program]), active: 0 }
}

/// The screen after a run of messages, one after the other.
pub open spec fn after_messages(s: ModelView, ms: Seq<Message>) -> ModelView
    decreases ms.len(),
{
    if ms.len() == 0 {
        s
    } else {
        update(after_messages(s, ms.drop_last()), ms.last())
    }
}

/// Messages that only edit the form change only its inputs, as they change
/// the inputs of any form.
pub proof fn lemma_edits_reach_only_the_form(s: ModelView, ms: Seq<Message>)
    requires
        forall|i: int| 0 <= i < ms.len() ==> is_form_edit(#[trigger] ms[i]),
    ensures
        after_messages(s, ms) == (ModelView { form: edits_after(s.form, ms), ..s }),
    decreases ms.len(),
{
    if ms.len() > 0 {
        assert forall|i: int| 0 <= i < ms.drop_last().len() implies is_form_edit(#[trigger] ms.drop_last()[i]) by {
            assert(ms.drop_last()[i] == ms[i]);
        }
        lemma_edits_reach_only_the_form(s, ms.drop_last());
        assert(is_form_edit(ms[ms.len() - 1]));
    }
}

/// Submitting after a run of edits submits the form those edits left.
proof fn lemma_submit_after_edits(s: ModelView, ms: Seq<Message>)
    requires
        forall|i: int| 0 <= i < ms.len() ==> is_form_edit(#[trigger] ms[i]),
    ensures
        after_messages(s, ms.push(Message::Submit))
            == update(ModelView { form: edits_after(s.form, ms), ..s }, Message::Submit),
{
    assert(ms.push(Message::Submit).drop_last() =~= ms);
    lemma_edits_reach_only_the_form(s, ms);
}

/// A command opened for editing is saved back unchanged, and text typed
/// right after opening it goes at the end of its name, its program
/// unchanged.
pub proof fn lemma_edited_command_keeps_its_fields(
    s: ModelView,
    c: command::PresenterView,
    more: Seq<char>,
)
    requires
        s.form == form_of(c),
        c.name.len() + more.len() < usize::MAX,
    ensures
        update(s, Message::Submit).redirect == Some(
            ScreenRouteView::Workspaces(
                workspaces::RouteView::Commands(
                    workspaces::commands::RouteView::Update(
                        UpdateWorkspaceCommandParametersView {
                            name: c.name,
                            program: c.program,
                            workspace_id: s.workspace_id,
                            command_id: s.command_id,
                        },
                    ),
                ),
            ),
        ),
        after_messages(s, typing(more).push(Message::Submit)).redirect == Some(
            ScreenRouteView::Workspaces(
                workspaces::RouteView::Commands(
                    workspaces::commands::RouteView::Update(
                        UpdateWorkspaceCommandParametersView {
                            name: c.name + more,
                            program: c.program,
                            workspace_id: s.workspace_id,
                            command_id: s.command_id,
                        },
                    ),
                ),
            ),
        ),
{
    lemma_typed_messages_are_edits(more, Seq::empty(), Seq::empty());
    lemma_submit_after_edits(s, typing(more));
    lemma_typing_into_loaded_form(seq![c.name, c.program], more);
    let f = edits_after(s.form, typing(more));
    assert(f.text(1) == seq![c.name, c.program][1]);
}


impl Model {
    /// The form holding the command's name and program.
    pub fn new(parameters: ModelParameters) -> (r: Model)
        ensures
            r@.form == form_of(parameters.command@),
            r@.command_id == parameters.command.id@,
            r@.workspace_id == parameters.command.workspace_id@,
            r@.breadcrumbs == seq![
                "List workspaces"@,
                parameters.workspace.name@,
                "List commands"@,
                parameters.command.name@,
                "Edit command"@,
            ],
            r@.redirect is None,
    {
        let ModelParameters { command, workspace } = parameters;
        let command::Presenter { workspace_id, id, name, program } = command;
        let mut breadcrumbs: Vec<String> = Vec::new();
        breadcrumbs.push(owned("List workspaces"));
        breadcrumbs.push(owned(workspace.name.as_str()));
        breadcrumbs.push(owned("List commands"));
        breadcrumbs.push(owned(name.as_str()));
        breadcrumbs.push(owned("Edit command"));
        proof {
            assert(breadcrumbs@.map_values(|s: String| s@) =~= seq![
                "List workspaces"@,
                workspace.name@,
                "List commands"@,
                name@,
                "Edit command"@,
            ]);
        }
        Model {
            form: FormInputs::new(two_values(name, program)),
            command_id: id,
            workspace_id,
            breadcrumbs,
            redirect: None,
        }
    }

    /// The route the form asks for, handed over once.
    pub fn redirect(&mut self) -> (r: Option<ScreenRoute>)
        ensures
            screen_route_view(r) == old(self)@.redirect,
            final(self)@ == (ModelView { redirect: None, ..old(self)@ }),
    {
        self.redirect.take()
    }

    /// The inputs of the form.
    pub fn form(&self) -> (r: &FormInputs)
        ensures
            r@ == self@.form,
    {
        &self.form
    }

    /// The path to the form, shown on the status line.
    pub fn breadcrumbs(&self) -> (r: &Vec<String>)
        ensures
            r@.map_values(|s: String| s@) == self@.breadcrumbs,
    {
        &self.breadcrumbs
    }

    /// Handles a message: Esc goes back to the command, Enter saves it, Tab
    /// and the editing keys act on the form.
    pub fn update(&mut self, message: Message)
        ensures
            final(self)@ == update(old(self)@, message),
    {
        match message {
            Message::Cancel => {
                self.redirect = Some(
                    ScreenRoute::Workspaces(
                        workspaces::Route::Commands(
                            workspaces::commands::Route::Get(
                                get::Parameters {
                                    workspace_id: owned(self.workspace_id.as_str()),
                                    command_id: owned(self.command_id.as_str()),
                                },
                            ),
                        ),
                    ),
                );
            },
            Message::Tab => self.form.select_next_input(),
            Message::DeleteAllChars => self.form.delete_all_chars(),
            Message::DeleteChar => self.form.delete_char(),
            Message::EnterChar(c) => self.form.enter_char(c),
            Message::MoveCusorLeft => self.form.move_cursor_left(),
            Message::MoveCusorRight => self.form.move_cursor_right(),
            Message::Submit => {
                self.redirect = Some(
                    ScreenRoute::Workspaces(
                        workspaces::Route::Commands(
                            workspaces::commands::Route::Update(
                                UpdateWorkspaceCommandParameters {
                                    name: self.form.value(0),
                                    program: self.form.value(1),
                                    workspace_id: owned(self.workspace_id.as_str()),
                                    command_id: owned(self.command_id.as_str()),
                                },
                            ),
                        ),
                    ),
                );
            },
            Message::ExecuteCommand | Message::SelectNext | Message::SelectPrevious => {},
        }
    }
}

} // verus!
