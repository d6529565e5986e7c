//! A command of a workspace, with a palette of what can be done to it.
use vstd::prelude::*;
use crate::components::command_palette::{self, selected_action, Component, ComponentParameters, ComponentView};
use crate::message::Message;
use crate::parameters::{
    DeleteWorkspaceCommandParameters, DeleteWorkspaceCommandParametersView,
    EditWorkspaceCommandParameters, EditWorkspaceCommandParametersView,
    ListWorkspaceCommandsParameters, ListWorkspaceCommandsParametersView,
};
use crate::presenters::{command, workspace};
use crate::routes::{screen_route_view, workspaces, ScreenRoute, ScreenRouteView};
use crate::text::owned;

verus! {

/// The screen of one command.
pub struct Model {
    workspace: workspace::Presenter,
    command: command::Presenter,
    redirect: Option<ScreenRoute>,
    command_palette: Option<Component>,
}

/// The command to show and its workspace.
pub struct ModelParameters {
    pub command: command::Presenter,
    pub workspace: workspace::Presenter,
}

/// The screen, as a value.
pub struct ModelView {
    pub workspace: workspace::PresenterView,
    pub command: command::PresenterView,
    pub redirect: Option<ScreenRouteView>,
    pub command_palette: Option<ComponentView>,
}

impl View for Model {
    type V = ModelView;

    closed spec fn view(&self) -> ModelView {
        ModelView {
            workspace: self.workspace@,
            command: self.command@,
            redirect: screen_route_view(self.redirect),
            command_palette: match self.command_palette {
                Some(p) => Some(p@),
                None => None,
            },
        }
    }
}

/// Back to the first page of the workspace's commands, searching for the
/// command's program, ten to a page.
pub open spec fn back_route(s: ModelView) -> ScreenRouteView {
    ScreenRouteView::Workspaces(
        workspaces::RouteView::Commands(
            workspaces::commands::RouteView::List(
                ListWorkspaceCommandsParametersView {
                    workspace_id: s.command.workspace_id,
                    search_query: s.command.program,
                    page_number: 0,
                    page_size: 10,
                    powershell_no_exit: false,
                },
            ),
        ),
    )
}

/// Enter: the action picked in the palette, if it is one this screen does.
pub open spec fn submitted(s: ModelView) -> ModelView {
    match s.command_palette {
        Some(p) => match selected_action(p) {
            Some(command_palette::Action::DeleteCommand) => ModelView {
                redirect: Some(
                    ScreenRouteView::Workspaces(
                        workspaces::RouteView::Commands(
                            workspaces::commands::RouteView::Delete(
                                DeleteWorkspaceCommandParametersView {
                                    workspace_id: s.command.workspace_id,
                                    command_id: s.command.id,
                                },
                            ),
                        ),
                    ),
                ),
                ..s
            },
            Some(command_palette::Action::EditCommand) => ModelView {
                redirect: Some(
                    ScreenRouteView::Workspaces(
                        workspaces::RouteView::Commands(
                            workspaces::commands::RouteView::Edit(
                                EditWorkspaceCommandParametersView {
                                    workspace_id: s.command.workspace_id,
                                    command_id: s.command.id,
                                },
                            ),
                        ),
                    ),
                ),
                ..s
            },
            _ => s,
        },
        None => s,
    }
}

/// The screen after a message: Esc goes back, Enter does what the palette
/// picked, the arrows move in the palette.
pub open spec fn update(s: ModelView, m: Message) -> ModelView {
    match m {
        Message::Cancel => ModelView { redirect: Some(back_route(s)), ..s },
        Message::Submit => submitted(s),
        Message::SelectNext => match s.command_palette {
            Some(p) => ModelView {
                command_palette: Some(ComponentView { selected: crate::selection::next_selection(p.selected), ..p }),
                ..s
            },
            None => s,
        },
        Message::SelectPrevious => match s.command_palette {
            Some(p) => ModelView {
                command_palette: Some(
                    ComponentView { selected: crate::selection::previous_selection(p.selected), ..p },
                ),
                ..s
            },
            None => s,
        },
        _ => s,
    }
}

impl Model {
    /// The screen of `command`, with no palette open.
    pub fn new(parameters: ModelParameters) -> (r: Model)
        ensures
            r@.command == parameters.command@,
            r@.workspace == parameters.workspace@,
            r@.redirect is None,
            r@.command_palette is None,
    {
        let ModelParameters { command, workspace } = parameters;
        Model { command, workspace, redirect: None, command_palette: None }
    }

    /// Opens the palette offering to delete or edit the command.
    pub fn activate_command_palette(&mut self)
        ensures
            final(self)@ == (ModelView {
                command_palette: Some(
                    ComponentView {
                        actions: seq![command_palette::Action::DeleteCommand, command_palette::Action::EditCommand],
                        selected: Some(0usize),
                    },
                ),
                ..old(self)@
            }),
    {
        let actions = vec![command_palette::Action::DeleteCommand, command_palette::Action::EditCommand];
        proof {
            assert(actions@ =~= seq![command_palette::Action::DeleteCommand, command_palette::Action::EditCommand]);
        }
        self.command_palette = Some(Component::new(ComponentParameters { actions }));
    }

    /// The route the screen asks for, handed over once.
    pub fn redirect(&mut self) -> (r: Option<ScreenRoute>)
        ensures
            screen_route_view(r) == old(self)@.redirect,
            final(self)@ == (ModelView { redirect: None, ..old(self)@ }),
    {
        self.redirect.take()
    }

    /// The palette, when it is open.
    pub fn command_palette(&self) -> (r: Option<&Component>)
        ensures
            match r {
                Some(p) => self@.command_palette == Some(p@),
                None => self@.command_palette is None,
            },
    {
        match &self.command_palette {
            Some(p) => Some(p),
            None => None,
        }
    }

    /// The path to the command, shown on the status line.
    pub fn breadcrumbs(&self) -> (r: Vec<String>)
        ensures
            r@.map_values(|s: String| s@) == seq![
                "List workspaces"@,
                self@.workspace.name,
                "List commands"@,
                self@.command.name,
            ],
    {
        let mut r: Vec<String> = Vec::new();
        r.push(owned("List workspaces"));
        r.push(owned(self.workspace.name.as_str()));
        r.push(owned("List commands"));
        r.push(owned(self.command.name.as_str()));
        proof {
            assert(r@.map_values(|s: String| s@) =~= seq![
                "List workspaces"@,
                self@.workspace.name,
                "List commands"@,
                self@.command.name,
            ]);
        }
        r
    }

    /// Handles a message.
    pub fn update(&mut self, message: Message)
        ensures
            final(self)@ == update(old(self)@, message),
    {
        match message {
            Message::Cancel => {
                self.redirect = Some(
                    ScreenRoute::Workspaces(
                        workspaces::Route::Commands(
                            workspaces::commands::Route::List(
                                ListWorkspaceCommandsParameters {
                                    workspace_id: owned(self.command.workspace_id.as_str()),
                                    search_query: owned(self.command.program.as_str()),
                                    page_number: 0,
                                    page_size: 10,
                                    powershell_no_exit: false,
                                },
                            ),
                        ),
                    ),
                );
            },
            Message::Submit => self.submit(),
            Message::SelectNext => {
                if let Some(command_palette) = &mut self.command_palette {
                    command_palette.select_next();
                }
            },
            Message::SelectPrevious => {
                if let Some(command_palette) = &mut self.command_palette {
                    command_palette.select_previous();
                }
            },
            _ => {},
        }
    }

    fn submit(&mut self)
        ensures
            final(self)@ == submitted(old(self)@),
    {
        let action = match &self.command_palette {
            Some(command_palette) => command_palette.action(),
            None => None,
        };
        match action {
            Some(command_palette::Action::DeleteCommand) => {
                self.redirect = Some(
                    ScreenRoute::Workspaces(
                        workspaces::Route::Commands(
                            workspaces::commands::Route::Delete(
                                DeleteWorkspaceCommandParameters {
                                    workspace_id: owned(self.command.workspace_id.as_str()),
                                    command_id: owned(self.command.id.as_str()),
                                },
                            ),
                        ),
                    ),
                );
            },
            Some(command_palette::Action::EditCommand) => {
                self.redirect = Some(
                    ScreenRoute::Workspaces(
                        workspaces::Route::Commands(
                            workspaces::commands::Route::Edit(
                                EditWorkspaceCommandParameters {
                                    workspace_id: owned(self.command.workspace_id.as_str()),
                                    command_id: owned(self.command.id.as_str()),
                                },
                            ),
                        ),
                    ),
                );
            },
            _ => {},
        }
    }
}

} // verus!
