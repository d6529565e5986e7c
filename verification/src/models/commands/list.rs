//! The commands of a workspace, one page at a time, with a prompt that
//! searches them or runs one of the screen's commands.
use vstd::prelude::*;
use crate::coordinator::{CommandId, Positive, WorkspaceId};
use crate::error::ModelError;
use crate::input::InputView;
use crate::message::Message;
use crate::params::{
    CopyCommandToClipboardParams, CopyCommandToClipboardParamsView, DeleteCommandParams,
    DeleteCommandParamsView, EditCommandParams, EditCommandParamsView, ExecuteCommandParams,
    ExecuteCommandParamsView, ListWorkspaceCommandsParams, ListWorkspaceCommandsParamsView,
    ListWorkspacesParams, ListWorkspacesParamsView, NewWorkspaceCommandParams,
    NewWorkspaceCommandParamsView, OpenWindowsTerminalParams, OpenWindowsTerminalParamsView,
};
use crate::presenters::{CommandPresenter, CommandPresenterView, WorkspacePresenter, WorkspacePresenterView};
use crate::routes::{
    route_view, PowerShellRoute, PowerShellRouteView, Route, RouteView, WorkspaceCommandsRouteView,
    WorkspacesRouteView,
};
use crate::selection::{next_selection, previous_selection, select_first, select_next, select_previous};
use crate::smart_input::{
    autocompleted, command_of, edit, search_of, NewSmartInputParameters, SmartInput, SmartInputView,
};
use crate::status_bar::{StatusBar, StatusBarView};
use crate::text::owned;
use crate::theme::Theme;
use super::action::{action_named, all_labels, labels, Action};

verus! {

/// Whether PowerShell stays open after running a command's startup.
pub struct PowerShellSettings {
    pub no_exit: bool,
}

impl PowerShellSettings {
    /// PowerShell stays open after running a command.
    pub fn set_no_exit(&mut self)
        ensures
            *final(self) == (PowerShellSettings { no_exit: true }),
    {
        self.no_exit = true;
    }

    /// PowerShell exits after running a command.
    pub fn unset_no_exit(&mut self)
        ensures
            *final(self) == (PowerShellSettings { no_exit: false }),
    {
        self.no_exit = false;
    }
}

/// The list of a workspace's commands.
pub struct ListWorkspaceCommandsModel {
    workspace: WorkspacePresenter,
    commands: Vec<CommandPresenter>,
    redirect: Option<Route>,
    selected: Option<usize>,
    powershell_settings: PowerShellSettings,
    page_number: Positive,
    page_size: Positive,
    smart_input: SmartInput,
    search_query: String,
    is_running: bool,
    theme: Theme,
    reload_page: Option<Positive>,
}

/// What the list shows first.
pub struct ListWorkspaceCommandsModelParameters {
    pub commands: Vec<CommandPresenter>,
    pub page_number: Option<Positive>,
    pub page_size: Option<Positive>,
    pub powershell_no_exit: bool,
    pub search_query: String,
    pub workspace: WorkspacePresenter,
    pub theme: Theme,
}

/// The list, as a value.
pub struct ListWorkspaceCommandsModelView {
    pub workspace: WorkspacePresenterView,
    pub commands: Seq<CommandPresenterView>,
    pub redirect: Option<RouteView>,
    /// The selected row, as ratatui's `ListState` holds it.
    pub selected: Option<usize>,
    pub no_exit: bool,
    pub page_number: u32,
    pub page_size: u32,
    pub input: SmartInputView,
    /// The search the page was listed with.
    pub search_query: Seq<char>,
    pub running: bool,
    pub theme: Theme,
    /// The page number that the screen's new listings ask for.
    pub reload_page: Option<u32>,
}

impl View for ListWorkspaceCommandsModel {
    type V = ListWorkspaceCommandsModelView;

    closed spec fn view(&self) -> ListWorkspaceCommandsModelView {
        ListWorkspaceCommandsModelView {
            workspace: self.workspace@,
            commands: self.commands@.map_values(|c: CommandPresenter| c@),
            redirect: route_view(self.redirect),
            selected: self.selected,
            no_exit: self.powershell_settings.no_exit,
            page_number: self.page_number@,
            page_size: self.page_size@,
            input: self.smart_input@,
            search_query: self.search_query@,
            running: self.is_running,
            theme: self.theme,
            reload_page: crate::params::opt_positive_view(self.reload_page),
        }
    }
}

/// The command under the selection, if the selection is on one.
pub open spec fn selected_command(s: ListWorkspaceCommandsModelView) -> Option<CommandPresenterView> {
    match s.selected {
        Some(i) => if i < s.commands.len() { Some(s.commands[i as int]) } else { None },
        None => None,
    }
}

/// The commands of the workspace matching `query`.
pub open spec fn commands_route(s: ListWorkspaceCommandsModelView, query: Seq<char>) -> RouteView {
    RouteView::Workspaces(
        WorkspacesRouteView::Commands(
            WorkspaceCommandsRouteView::List(
                ListWorkspaceCommandsParamsView {
                    workspace_id: s.workspace.id,
                    search_query: query,
                    page_number: s.reload_page,
                    page_size: Some(s.page_size),
                    powershell_no_exit: s.no_exit,
                },
            ),
        ),
    )
}

/// The list with its prompt changed.
pub open spec fn with_input(s: ListWorkspaceCommandsModelView, input: SmartInputView) -> ListWorkspaceCommandsModelView {
    ListWorkspaceCommandsModelView { input, ..s }
}

/// The prompt emptied.
pub open spec fn reset(s: ListWorkspaceCommandsModelView) -> ListWorkspaceCommandsModelView {
    with_input(s, edit(s.input, |v: InputView| v.delete_all_chars()))
}

/// After an edit of the prompt: a search lists the matching commands anew.
pub open spec fn reload(s: ListWorkspaceCommandsModelView) -> ListWorkspaceCommandsModelView {
    match search_of(s.input) {
        Some(q) => ListWorkspaceCommandsModelView { redirect: Some(commands_route(s, q)), ..s },
        None => s,
    }
}

/// Esc empties the prompt and, when the page was listed with a search,
/// lists the commands without one.
pub open spec fn cancelled(s: ListWorkspaceCommandsModelView) -> ListWorkspaceCommandsModelView {
    if s.search_query.len() > 0 {
        ListWorkspaceCommandsModelView { redirect: Some(commands_route(s, Seq::empty())), ..reset(s) }
    } else {
        reset(s)
    }
}

/// Running the selected command: it moves to the top of the list, where
/// the selection follows it.
pub open spec fn executed(s: ListWorkspaceCommandsModelView) -> ListWorkspaceCommandsModelView {
    match s.selected {
        Some(i) => if i < s.commands.len() {
            ListWorkspaceCommandsModelView {
                commands: s.commands.remove(i as int).insert(0, s.commands[i as int]),
                redirect: Some(
                    RouteView::Powershell(
                        PowerShellRouteView::ExecuteCommand(
                            ExecuteCommandParamsView {
                                command_id: s.commands[i as int].id,
                                powershell_no_exit: s.no_exit,
                            },
                        ),
                    ),
                ),
                selected: Some(0usize),
                ..s
            }
        } else {
            s
        },
        None => s,
    }
}

/// What a command of the prompt does, before the prompt is emptied.
pub open spec fn action_done(s: ListWorkspaceCommandsModelView, a: Action) -> ListWorkspaceCommandsModelView {
    match a {
        Action::DeleteCommand => match selected_command(s) {
            Some(c) => ListWorkspaceCommandsModelView {
                redirect: Some(
                    RouteView::Workspaces(
                        WorkspacesRouteView::Commands(
                            WorkspaceCommandsRouteView::Delete(
                                DeleteCommandParamsView { workspace_id: s.workspace.id, command_id: c.id },
                            ),
                        ),
                    ),
                ),
                ..s
            },
            None => s,
        },
        Action::ExecuteCommand => executed(s),
        Action::EditCommand => match selected_command(s) {
            Some(c) => ListWorkspaceCommandsModelView {
                redirect: Some(
                    RouteView::Workspaces(
                        WorkspacesRouteView::Commands(
                            WorkspaceCommandsRouteView::Edit(EditCommandParamsView { command_id: c.id }),
                        ),
                    ),
                ),
                ..s
            },
            None => s,
        },
        Action::Exit => ListWorkspaceCommandsModelView { running: false, ..s },
        Action::ListWorkspaces => ListWorkspaceCommandsModelView {
            redirect: Some(
                RouteView::Workspaces(
                    WorkspacesRouteView::List(
                        ListWorkspacesParamsView {
                            page_number: s.reload_page,
                            page_size: Some(s.page_size),
                            search_query: Some(Seq::empty()),
                        },
                    ),
                ),
            ),
            ..s
        },
        Action::NewCommand => ListWorkspaceCommandsModelView {
            redirect: Some(
                RouteView::Workspaces(
                    WorkspacesRouteView::Commands(
                        WorkspaceCommandsRouteView::New(NewWorkspaceCommandParamsView { workspace_id: s.workspace.id }),
                    ),
                ),
            ),
            ..s
        },
        Action::CopyToClipboard => reset(
            ListWorkspaceCommandsModelView {
                redirect: match selected_command(s) {
                    Some(c) => Some(
                        RouteView::Powershell(
                            PowerShellRouteView::CopyToClipboard(CopyCommandToClipboardParamsView { command_id: c.id }),
                        ),
                    ),
                    None => None,
                },
                ..s
            },
        ),
        Action::OpenWindowsTerminal => reset(
            ListWorkspaceCommandsModelView {
                redirect: Some(
                    RouteView::Powershell(
                        PowerShellRouteView::OpenWindowsTerminal(
                            OpenWindowsTerminalParamsView { workspace_id: s.workspace.id },
                        ),
                    ),
                ),
                ..s
            },
        ),
        Action::SetPowerShellNoExit => reset(ListWorkspaceCommandsModelView { no_exit: true, ..s }),
        Action::UnsetPowerShellNoExit => reset(ListWorkspaceCommandsModelView { no_exit: false, ..s }),
    }
}

/// Enter: a search is dropped; a command of the prompt is done and the
/// prompt emptied. `None` when the prompt names no command of the screen.
pub open spec fn submitted(s: ListWorkspaceCommandsModelView) -> Option<ListWorkspaceCommandsModelView> {
    if search_of(s.input) is Some {
        Some(reset(s))
    } else {
        match command_of(s.input) {
            None => Some(s),
            Some(name) => match action_named(name) {
                Some(a) => Some(reset(action_done(s, a))),
                None => None,
            },
        }
    }
}

/// The list after a message; `None` when the message fails.
pub open spec fn update(s: ListWorkspaceCommandsModelView, m: Message) -> Option<ListWorkspaceCommandsModelView> {
    match m {
        Message::Cancel => Some(cancelled(s)),
        Message::ExecuteCommand => Some(executed(s)),
        Message::DeleteAllChars => Some(reload(reset(s))),
        Message::DeleteChar => Some(reload(with_input(s, edit(s.input, |v: InputView| v.delete_char())))),
        Message::EnterChar(c) => Some(reload(with_input(s, edit(s.input, |v: InputView| v.enter_char(c))))),
        Message::MoveCusorLeft => Some(with_input(s, edit(s.input, |v: InputView| v.move_cursor_left()))),
        Message::MoveCusorRight => Some(with_input(s, edit(s.input, |v: InputView| v.move_cursor_right()))),
        Message::SelectNext => Some(ListWorkspaceCommandsModelView { selected: next_selection(s.selected), ..s }),
        Message::SelectPrevious => Some(ListWorkspaceCommandsModelView { selected: previous_selection(s.selected), ..s }),
        Message::Submit => submitted(s),
        Message::Tab => Some(with_input(s, autocompleted(s.input))),
    }
}

/// The status line of the list.
pub open spec fn status_bar_of(s: ListWorkspaceCommandsModelView) -> StatusBarView {
    StatusBarView {
        operation: Some("List commands"@),
        workspace: Some(s.workspace.name),
        command: None,
        page: Some(s.page_number),
        selector: match selected_command(s) {
            Some(c) => Some(c.name),
            None => None,
        },
        pwsh: if s.no_exit { Some("-NoExit"@) } else { None },
        search: if s.search_query.len() > 0 { Some(s.search_query) } else { None },
    }
}

/// Running a command runs the selected one: the route asked for carries the
/// id of the command that was selected, that command moves to the top of
/// the list and stays selected, the commands above it move down one row,
/// and those below it stay where they were.
pub proof fn lemma_execute_runs_the_selected_command(s: ListWorkspaceCommandsModelView, i: usize)
    requires
        s.selected == Some(i),
        i < s.commands.len(),
    ensures
        ({
            let t = update(s, Message::ExecuteCommand)->0;
            &&& t.redirect == Some(
                RouteView::Powershell(
                    PowerShellRouteView::ExecuteCommand(
                        ExecuteCommandParamsView {
                            command_id: s.commands[i as int].id,
                            powershell_no_exit: s.no_exit,
                        },
                    ),
                ),
            )
            &&& t.commands.len() == s.commands.len()
            &&& t.commands[0] == s.commands[i as int]
            &&& t.selected == Some(0usize)
            &&& forall|j: int| 0 <= j < i ==> #[trigger] t.commands[j + 1] == s.commands[j]
            &&& forall|j: int| i < j < s.commands.len() ==> #[trigger] t.commands[j] == s.commands[j]
        }),
{
    let t = update(s, Message::ExecuteCommand)->0;
    assert forall|j: int| 0 <= j < i implies #[trigger] t.commands[j + 1] == s.commands[j] by {
        assert(s.commands.remove(i as int)[j] == s.commands[j]);
    }
    assert forall|j: int| i < j < s.commands.len() implies #[trigger] t.commands[j] == s.commands[j] by {
        assert(s.commands.remove(i as int)[j - 1] == s.commands[j]);
    }
}

/// Moving down and then running a command runs the command below the one
/// that was selected.
pub proof fn lemma_execute_after_moving_down_runs_the_next_command(s: ListWorkspaceCommandsModelView, i: usize)
    requires
        s.selected == Some(i),
        i + 1 < s.commands.len(),
        s.commands.len() <= usize::MAX,
    ensures
        update(update(s, Message::SelectNext)->0, Message::ExecuteCommand)->0.redirect == Some(
            RouteView::Powershell(
                PowerShellRouteView::ExecuteCommand(
                    ExecuteCommandParamsView { command_id: s.commands[i + 1].id, powershell_no_exit: s.no_exit },
                ),
            ),
        ),
{
    let m = update(s, Message::SelectNext)->0;
    assert(m.selected == Some((i + 1) as usize));
    lemma_execute_runs_the_selected_command(m, (i + 1) as usize);
}

impl ListWorkspaceCommandsModel {
    /// The list of `commands`, the first selected, the prompt holding the
    /// search the page was listed with. Pages are numbered from 1 and hold
    /// 10 commands unless said otherwise; new listings ask for page 1.
    pub fn new(parameters: ListWorkspaceCommandsModelParameters) -> (r: ListWorkspaceCommandsModel)
        ensures
            r@.workspace == parameters.workspace@,
            r@.commands == parameters.commands@.map_values(|c: CommandPresenter| c@),
            r@.selected == (if parameters.commands@.len() > 0 { Some(0usize) } else { None }),
            r@.no_exit == parameters.powershell_no_exit,
            r@.page_number == (match parameters.page_number { Some(p) => p@, None => 1 }),
            r@.page_size == (match parameters.page_size { Some(p) => p@, None => 10 }),
            r@.input.input == InputView::with_text(parameters.search_query@),
            r@.input.commands == labels(),
            r@.search_query == parameters.search_query@,
            r@.redirect is None,
            r@.running,
            r@.theme == parameters.theme,
            r@.reload_page == Some(1u32),
    {
        let ten = Positive::new(10);
        let default_size = match ten {
            Some(p) => p,
            None => crate::coordinator::first_page(),
        };
        Self::with_paging(parameters, crate::coordinator::first_page(), default_size, Positive::new(1))
    }

    /// The list, with the page size used when none is given and the page
    /// number that new listings ask for.
    pub(crate) fn with_paging(
        parameters: ListWorkspaceCommandsModelParameters,
        first_page: Positive,
        default_page_size: Positive,
        reload_page: Option<Positive>,
    ) -> (r: ListWorkspaceCommandsModel)
        ensures
            r@.workspace == parameters.workspace@,
            r@.commands == parameters.commands@.map_values(|c: CommandPresenter| c@),
            r@.selected == (if parameters.commands@.len() > 0 { Some(0usize) } else { None }),
            r@.no_exit == parameters.powershell_no_exit,
            r@.page_number == (match parameters.page_number { Some(p) => p@, None => first_page@ }),
            r@.page_size == (match parameters.page_size { Some(p) => p@, None => default_page_size@ }),
            r@.input.input == InputView::with_text(parameters.search_query@),
            r@.input.commands == labels(),
            r@.search_query == parameters.search_query@,
            r@.redirect is None,
            r@.running,
            r@.theme == parameters.theme,
            r@.reload_page == crate::params::opt_positive_view(reload_page),
    {
        let ListWorkspaceCommandsModelParameters {
            commands,
            page_number,
            page_size,
            powershell_no_exit,
            search_query,
            workspace,
            theme,
        } = parameters;
        let selected = if commands.len() > 0 {
            select_first(None)
        } else {
            None
        };
        let mut smart_input = SmartInput::new(NewSmartInputParameters { theme, commands: all_labels() });
        let query = crate::text::chars_of(search_query.as_str());
        let mut i: usize = 0;
        proof {
            assert(query@.take(0) =~= Seq::<char>::empty());
        }
        while i < query.len()
            invariant
                i <= query.len(),
                smart_input@.commands == labels(),
                smart_input@.input == InputView::with_text(query@.take(i as int)),
            decreases query.len() - i,
        {
            smart_input.enter_char(query[i]);
            proof {
                assert(query@.take(i as int).insert(i as int, query@[i as int]) =~= query@.take(i as int + 1));
            }
            i = i + 1;
        }
        proof {
            assert(query@.take(query@.len() as int) =~= query@);
        }
        ListWorkspaceCommandsModel {
            selected,
            commands,
            page_number: match page_number {
                Some(p) => p,
                None => first_page,
            },
            page_size: match page_size {
                Some(p) => p,
                None => default_page_size,
            },
            powershell_settings: PowerShellSettings { no_exit: powershell_no_exit },
            redirect: None,
            smart_input,
            workspace,
            search_query,
            is_running: true,
            theme,
            reload_page,
        }
    }

    /// Whether the list still runs.
    pub fn is_running(&self) -> (r: bool)
        ensures
            r == self@.running,
    {
        self.is_running
    }

    /// The route the list asks for, handed over once.
    pub fn redirect(&mut self) -> (r: Option<Route>)
        ensures
            route_view(r) == old(self)@.redirect,
            final(self)@ == (ListWorkspaceCommandsModelView { redirect: None, ..old(self)@ }),
    {
        self.redirect.take()
    }

    /// Handles a message. Enter on a prompt that names no command of the
    /// screen fails, naming it, and changes nothing.
    pub fn update(&mut self, message: Message) -> (r: Result<(), ModelError>)
        ensures
            match r {
                Ok(()) => update(old(self)@, message) == Some(final(self)@),
                Err(ModelError::UnknownAction(name)) => update(old(self)@, message) is None
                    && final(self)@ == old(self)@ && command_of(old(self)@.input) == Some(name@),
            },
            match r {
                Ok(()) => true,
                Err(e) => command_of(old(self)@.input) matches Some(typed)
                    && e.message_text() == "Unknown action: "@ + typed,
            },
    {
        match message {
            Message::Cancel => self.cancel(),
            Message::ExecuteCommand => self.execute_command(),
            Message::DeleteAllChars => self.delete_all_chars(),
            Message::DeleteChar => self.delete_char(),
            Message::EnterChar(c) => self.enter_char(c),
            Message::MoveCusorLeft => self.move_cursor_left(),
            Message::MoveCusorRight => self.move_cursor_right(),
            Message::SelectNext => self.select_next(),
            Message::SelectPrevious => self.select_previous(),
            Message::Submit => {
                return self.submit();
            },
            Message::Tab => self.toggle_focus(),
        }
        Ok(())
    }

    /// The status line of the list.
    pub fn status_bar(&self) -> (r: StatusBar)
        ensures
            r@ == status_bar_of(self@),
    {
        let mut builder = StatusBar::builder().operation("List commands").workspace(
            self.workspace.name.as_str(),
        ).page(self.page_number.get());
        if let Some(command) = self.command() {
            builder = builder.selector(command.name.as_str());
        }
        if self.powershell_settings.no_exit {
            builder = builder.pwsh("-NoExit");
        }
        if !self.search_query.as_str().is_empty() {
            builder = builder.search(self.search_query.as_str());
        }
        builder.build()
    }

    /// The page shown.
    pub fn page_number(&self) -> (r: u32)
        ensures
            r == self@.page_number,
    {
        self.page_number.get()
    }

    /// The name of the workspace.
    pub fn workspace_name(&self) -> (r: String)
        ensures
            r@ == self@.workspace.name,
    {
        owned(self.workspace.name.as_str())
    }

    /// The name of the selected command, if the selection is on one.
    pub fn selected_command_name(&self) -> (r: Option<String>)
        ensures
            match r {
                Some(n) => selected_command(self@) matches Some(c) && n@ == c.name,
                None => selected_command(self@) is None,
            },
    {
        match self.command() {
            Some(command) => Some(owned(command.name.as_str())),
            None => None,
        }
    }

    /// The commands shown.
    pub fn commands(&self) -> (r: &Vec<CommandPresenter>)
        ensures
            r@.map_values(|c: CommandPresenter| c@) == self@.commands,
    {
        &self.commands
    }

    /// The selected row, as ratatui's `ListState` holds it.
    pub fn selected(&self) -> (r: Option<usize>)
        ensures
            r == self@.selected,
    {
        self.selected
    }

    /// Takes back the selection as drawing left it (drawing keeps it on
    /// the list).
    pub fn set_selected(&mut self, selected: Option<usize>)
        ensures
            final(self)@ == (ListWorkspaceCommandsModelView { selected, ..old(self)@ }),
    {
        self.selected = selected;
    }

    /// The prompt.
    pub fn smart_input(&self) -> (r: &SmartInput)
        ensures
            r@ == self@.input,
    {
        &self.smart_input
    }

    /// The colours of the list.
    pub fn theme(&self) -> (r: Theme)
        ensures
            r == self@.theme,
    {
        self.theme
    }

    fn toggle_focus(&mut self)
        ensures
            update(old(self)@, Message::Tab) == Some(final(self)@),
    {
        self.smart_input.autocomplete();
    }

    fn set_list_redirect(&mut self, search_query: String)
        ensures
            final(self)@ == (ListWorkspaceCommandsModelView {
                redirect: Some(commands_route(old(self)@, search_query@)),
                ..old(self)@
            }),
    {
        self.redirect = Some(
            Route::from(
                ListWorkspaceCommandsParams {
                    workspace_id: self.workspace.id,
                    search_query,
                    page_number: self.reload_page,
                    page_size: Some(self.page_size),
                    powershell_no_exit: self.powershell_settings.no_exit,
                },
            ),
        );
    }

    fn cancel(&mut self)
        ensures
            update(old(self)@, Message::Cancel) == Some(final(self)@),
    {
        self.smart_input.reset_input();
        if !self.search_query.as_str().is_empty() {
            self.set_list_redirect(String::new());
        }
    }

    fn execute_command(&mut self)
        ensures
            final(self)@ == executed(old(self)@),
    {
        let index = match self.selected {
            Some(index) => index,
            None => {
                return;
            },
        };
        if index >= self.commands.len() {
            return;
        }
        let ghost before = self.commands@;
        let command = self.commands.remove(index);
        self.redirect = Some(
            Route::Powershell(
                PowerShellRoute::ExecuteCommand(
                    ExecuteCommandParams {
                        command_id: command.id,
                        powershell_no_exit: self.powershell_settings.no_exit,
                    },
                ),
            ),
        );
        self.commands.insert(0, command);
        self.selected = select_first(self.selected);
        proof {
            assert(self.commands@ == before.remove(index as int).insert(0, before[index as int]));
            assert(self@.commands =~= old(self)@.commands.remove(index as int).insert(0, old(self)@.commands[index as int]));
        }
    }

    fn exit(&mut self)
        ensures
            final(self)@ == (ListWorkspaceCommandsModelView { running: false, ..old(self)@ }),
    {
        self.is_running = false;
    }

    fn command(&self) -> (r: Option<&CommandPresenter>)
        ensures
            match r {
                Some(c) => selected_command(self@) == Some(c@),
                None => selected_command(self@) is None,
            },
    {
        match self.selected {
            Some(index) => if index < self.commands.len() {
                Some(&self.commands[index])
            } else {
                None
            },
            None => None,
        }
    }

    fn copy_to_clipboard_parameters(&self) -> (r: Option<CopyCommandToClipboardParams>)
        ensures
            match r {
                Some(p) => selected_command(self@) matches Some(c) && p@.command_id == c.id,
                None => selected_command(self@) is None,
            },
    {
        match self.command() {
            Some(command) => Some(CopyCommandToClipboardParams { command_id: command.id }),
            None => None,
        }
    }

    fn open_windows_terminal_parameters(&self) -> (r: OpenWindowsTerminalParams)
        ensures
            r@.workspace_id == self@.workspace.id,
    {
        OpenWindowsTerminalParams { workspace_id: self.workspace.id }
    }

    fn copy_to_clipboard(&mut self)
        ensures
            final(self)@ == action_done(old(self)@, Action::CopyToClipboard),
    {
        self.redirect = match self.copy_to_clipboard_parameters() {
            Some(parameters) => Some(Route::Powershell(PowerShellRoute::CopyToClipboard(parameters))),
            None => None,
        };
        self.smart_input.reset_input();
    }

    fn open_windows_terminal(&mut self)
        ensures
            final(self)@ == action_done(old(self)@, Action::OpenWindowsTerminal),
    {
        self.redirect = Some(
            Route::Powershell(PowerShellRoute::OpenWindowsTerminal(self.open_windows_terminal_parameters())),
        );
        self.smart_input.reset_input();
    }

    fn powershell_set_no_exit(&mut self)
        ensures
            final(self)@ == action_done(old(self)@, Action::SetPowerShellNoExit),
    {
        self.powershell_settings.set_no_exit();
        self.smart_input.reset_input();
    }

    fn powershell_unset_no_exit(&mut self)
        ensures
            final(self)@ == action_done(old(self)@, Action::UnsetPowerShellNoExit),
    {
        self.powershell_settings.unset_no_exit();
        self.smart_input.reset_input();
    }

    fn select_next(&mut self)
        ensures
            update(old(self)@, Message::SelectNext) == Some(final(self)@),
    {
        self.selected = select_next(self.selected);
    }

    fn select_previous(&mut self)
        ensures
            update(old(self)@, Message::SelectPrevious) == Some(final(self)@),
    {
        self.selected = select_previous(self.selected);
    }

    fn new_command_parameters(&self) -> (r: NewWorkspaceCommandParams)
        ensures
            r@.workspace_id == self@.workspace.id,
    {
        NewWorkspaceCommandParams { workspace_id: self.workspace.id }
    }

    fn do_action(&mut self, action: Action)
        ensures
            final(self)@ == action_done(old(self)@, action),
    {
        match action {
            Action::DeleteCommand => {
                if let Some(command) = self.command() {
                    let command_id = command.id;
                    self.redirect = Some(
                        Route::from(DeleteCommandParams { workspace_id: self.workspace.id, command_id }),
                    );
                }
            },
            Action::ExecuteCommand => self.execute_command(),
            Action::EditCommand => {
                if let Some(command) = self.command() {
                    let command_id = command.id;
                    self.redirect = Some(Route::from(EditCommandParams { command_id }));
                }
            },
            Action::Exit => self.exit(),
            Action::ListWorkspaces => {
                self.redirect = Some(
                    Route::from(
                        ListWorkspacesParams {
                            page_number: self.reload_page,
                            page_size: Some(self.page_size),
                            search_query: Some(String::new()),
                        },
                    ),
                );
            },
            Action::NewCommand => {
                self.redirect = Some(Route::from(self.new_command_parameters()));
            },
            Action::CopyToClipboard => self.copy_to_clipboard(),
            Action::OpenWindowsTerminal => self.open_windows_terminal(),
            Action::SetPowerShellNoExit => self.powershell_set_no_exit(),
            Action::UnsetPowerShellNoExit => self.powershell_unset_no_exit(),
        }
    }

    fn submit(&mut self) -> (r: Result<(), ModelError>)
        ensures
            match r {
                Ok(()) => submitted(old(self)@) == Some(final(self)@),
                Err(ModelError::UnknownAction(name)) => submitted(old(self)@) is None
                    && final(self)@ == old(self)@ && command_of(old(self)@.input) == Some(name@),
            },
    {
        if self.smart_input.search().is_some() {
            self.smart_input.reset_input();
            return Ok(());
        }
        let command = match self.smart_input.command() {
            Some(command) => command,
            None => {
                return Ok(());
            },
        };
        let action = match Action::parse(command.as_str()) {
            Ok(action) => action,
            Err(e) => {
                return Err(e);
            },
        };
        self.do_action(action);
        self.smart_input.reset_input();
        Ok(())
    }

    fn enter_char(&mut self, c: char)
        ensures
            update(old(self)@, Message::EnterChar(c)) == Some(final(self)@),
    {
        self.smart_input.enter_char(c);
        if let Some(search_query) = self.smart_input.search() {
            self.set_list_redirect(search_query);
        }
    }

    fn delete_char(&mut self)
        ensures
            update(old(self)@, Message::DeleteChar) == Some(final(self)@),
    {
        self.smart_input.delete_char();
        if let Some(search_query) = self.smart_input.search() {
            self.set_list_redirect(search_query);
        }
    }

    fn delete_all_chars(&mut self)
        ensures
            update(old(self)@, Message::DeleteAllChars) == Some(final(self)@),
    {
        self.smart_input.reset_input();
        if let Some(search_query) = self.smart_input.search() {
            self.set_list_redirect(search_query);
        }
    }

    fn move_cursor_left(&mut self)
        ensures
            update(old(self)@, Message::MoveCusorLeft) == Some(final(self)@),
    {
        self.smart_input.move_cursor_left();
    }

    fn move_cursor_right(&mut self)
        ensures
            update(old(self)@, Message::MoveCusorRight) == Some(final(self)@),
    {
        self.smart_input.move_cursor_right();
    }
}

/// Running a command reorders the list and nothing more: the same
/// commands stay listed, the one run comes first and is selected.
pub proof fn lemma_execute_keeps_the_commands(s: ListWorkspaceCommandsModelView)
    ensures
        executed(s).commands.to_multiset() == s.commands.to_multiset(),
        selected_command(s) matches Some(c) ==> executed(s).commands[0] == c
            && executed(s).selected == Some(0usize) && selected_command(executed(s)) == Some(c),
{
    broadcast use vstd::seq_lib::group_to_multiset_ensures;
    if let Some(i) = s.selected {
        if i < s.commands.len() {
            let c = s.commands[i as int];
            let rest = s.commands.remove(i as int);
            assert(rest.insert(0, c).to_multiset() == rest.to_multiset().insert(c));
            assert(s.commands.to_multiset() == rest.to_multiset().insert(c)) by {
                assert(s.commands == rest.insert(i as int, c));
            }
        }
    }
}

/// Typing into a search lists the commands matching the search as it now
/// reads, with the same page size and PowerShell setting.
pub proof fn lemma_typing_searches(s: ListWorkspaceCommandsModelView, c: char)
    requires
        search_of(edit(s.input, |v: InputView| v.enter_char(c))) is Some,
    ensures
        update(s, Message::EnterChar(c)) matches Some(t) && t.redirect == Some(
            commands_route(s, t.input.input.text),
        ) && t.commands == s.commands && t.selected == s.selected,
{
}

} // verus!
