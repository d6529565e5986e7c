use hermione_terminal::coordinator::Positive;
use hermione_terminal::params::{ExecuteProgramParams, ListWorkspaceCommandsParams, ListWorkspacesParams};
use hermione_terminal::parameters::ListWorkspaceCommandsParameters;
use hermione_terminal::router::{Router, TerminalRouter};
use hermione_terminal::router::workspaces::{commands::Router as CommandsRouter, Router as WorkspacesRouter};
use hermione_terminal::routes::{workspaces, PowerShellRoute, Route, ScreenRoute, WorkspaceCommandsRoute, WorkspacesRoute};
use hermione_terminal::screen::popup::{Area, Popup};
use hermione_terminal::theme::Theme;

fn first_commands_page(id: u128, query: &str) -> ListWorkspaceCommandsParams {
    ListWorkspaceCommandsParams {
        workspace_id: id,
        search_query: query.to_string(),
        page_number: Positive::new(1),
        page_size: Positive::new(100),
        powershell_no_exit: false,
    }
}

#[test]
fn the_first_screen_depends_on_the_first_workspace() {
    let router = TerminalRouter { theme: Theme::plain() };
    assert_eq!(router.default_route(None), Route::Workspaces(WorkspacesRoute::New));
    assert_eq!(
        router.default_route(Some(8)),
        Route::Workspaces(WorkspacesRoute::Commands(WorkspaceCommandsRoute::List(first_commands_page(8, ""))))
    );
    assert_eq!(
        router.first_workspace_query(),
        ListWorkspacesParams { search_query: Some(String::new()), page_number: Positive::new(1), page_size: Positive::new(1) }
    );
}

#[test]
fn router_follow_ups_after_changes() {
    let router = TerminalRouter { theme: Theme::plain() };
    assert_eq!(router.command_created(3, "make".to_string()), first_commands_page(3, "make"));
    assert_eq!(router.command_deleted(3), first_commands_page(3, ""));
    assert_eq!(
        router.workspace_updated("Home".to_string()),
        ListWorkspacesParams { search_query: Some("Home".to_string()), page_number: Positive::new(1), page_size: Positive::new(100) }
    );
    let run = Route::Powershell(PowerShellRoute::ExecuteProgram(ExecuteProgramParams { workspace_id: 1, program: "ls".to_string() }));
    assert!(!router.shows_screen(&run));
    assert!(router.shows_screen(&Route::Workspaces(WorkspacesRoute::New)));
}

#[test]
fn text_id_routers_follow_ups() {
    let page = |query: &str| ListWorkspaceCommandsParameters {
        workspace_id: "w".to_string(),
        search_query: query.to_string(),
        page_number: 0,
        page_size: 100,
        powershell_no_exit: false,
    };
    assert_eq!(CommandsRouter.command_created("w", "make"), page("make"));
    assert_eq!(CommandsRouter.command_deleted("w"), page(""));
    assert_eq!(WorkspacesRouter.workspace_updated("w"), page(""));
    assert_eq!(Router.default_route(None), ScreenRoute::Workspaces(workspaces::Route::New));
    assert_eq!(
        Router.default_route(Some("w")),
        ScreenRoute::Workspaces(workspaces::Route::Commands(workspaces::commands::Route::List(page(""))))
    );
}

#[test]
fn wide_popup_takes_half_of_the_area_centred() {
    let area = Area { x: 0, y: 0, width: 100, height: 50 };
    let popup = Popup::new(area).wide_area();
    assert_eq!(popup.width, 50);
    assert_eq!(popup.height, 25);
    assert_eq!(popup.x, 25);
    assert!(popup.y >= 12 && popup.y <= 13);
}

#[test]
fn plain_theme_draws_every_part_in_the_terminal_default_colour() {
    let theme = Theme::plain();
    let reset = ratatui::style::Color::Reset;
    assert_eq!(theme.background_color, reset);
    assert_eq!(theme.danger_color, reset);
    assert_eq!(theme.foreground_color, reset);
    assert_eq!(theme.highlight_color, reset);
    assert_eq!(theme.input_color, reset);
    assert_eq!(theme.popup_background_color, reset);
    assert_eq!(theme.status_bar_background_color, reset);
    assert_eq!(theme.status_bar_foreground_color, reset);
}
