//! The commands of a workspace, one page at a time (pages numbered from 0),
//! with a prompt that searches them or, once toggled, runs one of the
//! screen's commands.
use vstd::prelude::*;
use crate::error::ModelError;
use crate::input::InputView;
use crate::message::Message;
use crate::parameters::{
    workspaces::{commands::new, list},
    CopyToClipboardParameters, CopyToClipboardParametersView, DeleteWorkspaceCommandParameters,
    DeleteWorkspaceCommandParametersView, EditWorkspaceCommandParameters,
    EditWorkspaceCommandParametersView, ListWorkspaceCommandsParameters,
    ListWorkspaceCommandsParametersView, OpenWindowsTerminalParameters,
    OpenWindowsTerminalParametersView, PowerShellExecuteCommandParameters,
    PowerShellExecuteCommandParametersView,
};
use crate::presenters::{command, workspace};
use crate::routes::{powershell, screen_route_view, workspaces, ScreenRoute, ScreenRouteView};
use crate::selection::{next_selection, previous_selection, select_first, select_next, select_previous};
use crate::smart_input::{
    edit, toggled, value_of, NewSmartInputParameters, SmartInput, SmartInputView, Value, ValueView,
};
use crate::text::{decimal, labelled_number, owned, str_eq};
use crate::theme::Theme;

verus! {

/// A command of the prompt.
#[derive(Clone, Copy, Debug, PartialEq, Eq, Structural)]
pub enum Action {
    CopyToClipboard,
    DeleteCommand,
    EditCommand,
    Exit,
    ListWorkspaces,
    NewCommand,
    StartWindowsTerminal,
    PowerShellSetNoExit,
    PowerShellUnsetNoExit,
}

/// The name of a command, as the prompt shows it.
pub open spec fn label(a: Action) -> Seq<char> {
    match a {
        Action::CopyToClipboard => "Copy to clipboard"@,
        Action::DeleteCommand => "Delete command"@,
        Action::EditCommand => "Edit command"@,
        Action::Exit => "Exit"@,
        Action::ListWorkspaces => "List workspaces"@,
        Action::NewCommand => "New command"@,
        Action::StartWindowsTerminal => "Start Windows Terminal"@,
        Action::PowerShellSetNoExit => "Set PowerShell -NoExit"@,
        Action::PowerShellUnsetNoExit => "Unset PowerShell -NoExit"@,
    }
}

/// The commands, in the order the prompt offers them.
pub open spec fn prompt_actions() -> Seq<Action> {
    seq![
        Action::CopyToClipboard,
        Action::DeleteCommand,
        Action::EditCommand,
        Action::Exit,
        Action::ListWorkspaces,
        Action::NewCommand,
        Action::PowerShellSetNoExit,
        Action::PowerShellUnsetNoExit,
        Action::StartWindowsTerminal,
    ]
}

/// The names the prompt offers.
pub open spec fn labels() -> Seq<Seq<char>> {
    prompt_actions().map_values(|a: Action| label(a))
}

/// The command named `name`, if there is one.
pub open spec fn action_named(name: Seq<char>) -> Option<Action> {
    if name == label(Action::CopyToClipboard) {
        Some(Action::CopyToClipboard)
    } else if name == label(Action::DeleteCommand) {
        Some(Action::DeleteCommand)
    } else if name == label(Action::EditCommand) {
        Some(Action::EditCommand)
    } else if name == label(Action::Exit) {
        Some(Action::Exit)
    } else if name == label(Action::ListWorkspaces) {
        Some(Action::ListWorkspaces)
    } else if name == label(Action::NewCommand) {
        Some(Action::NewCommand)
    } else if name == label(Action::PowerShellSetNoExit) {
        Some(Action::PowerShellSetNoExit)
    } else if name == label(Action::StartWindowsTerminal) {
        Some(Action::StartWindowsTerminal)
    } else if name == label(Action::PowerShellUnsetNoExit) {
        Some(Action::PowerShellUnsetNoExit)
    } else {
        None
    }
}

impl Action {
    /// The name of the command.
    pub fn label(self) -> (r: String)
        ensures
            r@ == label(self),
    {
        match self {
            Action::CopyToClipboard => owned("Copy to clipboard"),
            Action::DeleteCommand => owned("Delete command"),
            Action::EditCommand => owned("Edit command"),
            Action::Exit => owned("Exit"),
            Action::ListWorkspaces => owned("List workspaces"),
            Action::NewCommand => owned("New command"),
            Action::StartWindowsTerminal => owned("Start Windows Terminal"),
            Action::PowerShellSetNoExit => owned("Set PowerShell -NoExit"),
            Action::PowerShellUnsetNoExit => owned("Unset PowerShell -NoExit"),
        }
    }

    /// The command named `value`; an error naming it when there is none.
    pub fn parse(value: &str) -> (r: Result<Action, ModelError>)
        ensures
            match r {
                Ok(a) => action_named(value@) == Some(a) && label(a) == value@,
                Err(ModelError::UnknownAction(name)) => action_named(value@) is None && name@ == value@,
            },
            match r {
                Ok(_) => true,
                Err(e) => e.message_text() == "Unknown action: "@ + value@,
            },
    {
        if str_eq(value, "Copy to clipboard") {
            Ok(Action::CopyToClipboard)
        } else if str_eq(value, "Delete command") {
            Ok(Action::DeleteCommand)
        } else if str_eq(value, "Edit command") {
            Ok(Action::EditCommand)
        } else if str_eq(value, "Exit") {
            Ok(Action::Exit)
        } else if str_eq(value, "List workspaces") {
            Ok(Action::ListWorkspaces)
        } else if str_eq(value, "New command") {
            Ok(Action::NewCommand)
        } else if str_eq(value, "Set PowerShell -NoExit") {
            Ok(Action::PowerShellSetNoExit)
        } else if str_eq(value, "Start Windows Terminal") {
            Ok(Action::StartWindowsTerminal)
        } else if str_eq(value, "Unset PowerShell -NoExit") {
            Ok(Action::PowerShellUnsetNoExit)
        } else {
            Err(ModelError::UnknownAction(owned(value)))
        }
    }
}

/// A command's name names that command.
pub proof fn lemma_label_names_action(a: Action)
    ensures
        action_named(label(a)) == Some(a),
{
    reveal_strlit("Copy to clipboard");
    reveal_strlit("Delete command");
    reveal_strlit("Edit command");
    reveal_strlit("Exit");
    reveal_strlit("List workspaces");
    reveal_strlit("New command");
    reveal_strlit("Start Windows Terminal");
    reveal_strlit("Set PowerShell -NoExit");
    reveal_strlit("Unset PowerShell -NoExit");
    assert(label(Action::CopyToClipboard).len() == 17);
    assert(label(Action::DeleteCommand).len() == 14);
    assert(label(Action::EditCommand).len() == 12);
    assert(label(Action::Exit).len() == 4);
    assert(label(Action::ListWorkspaces).len() == 15);
    assert(label(Action::NewCommand).len() == 11);
    assert(label(Action::StartWindowsTerminal).len() == 22);
    assert(label(Action::PowerShellSetNoExit).len() == 22);
    assert(label(Action::PowerShellUnsetNoExit).len() == 24);
    assert(label(Action::StartWindowsTerminal)[1] != label(Action::PowerShellSetNoExit)[1]);
}

fn prompt_labels() -> (r: Vec<String>)
    ensures
        r@.map_values(|s: String| s@) == labels(),
{
    let mut r: Vec<String> = Vec::new();
    r.push(Action::CopyToClipboard.label());
    r.push(Action::DeleteCommand.label());
    r.push(Action::EditCommand.label());
    r.push(Action::Exit.label());
    r.push(Action::ListWorkspaces.label());
    r.push(Action::NewCommand.label());
    r.push(Action::PowerShellSetNoExit.label());
    r.push(Action::PowerShellUnsetNoExit.label());
    r.push(Action::StartWindowsTerminal.label());
    proof {
        assert(r@.map_values(|s: String| s@) =~= labels());
    }
    r
}

/// The commands of a workspace.
pub struct Model {
    workspace: workspace::Presenter,
    commands: Vec<command::Presenter>,
    redirect: Option<ScreenRoute>,
    selected: Option<usize>,
    no_exit: bool,
    page_number: u32,
    page_size: u32,
    smart_input: SmartInput,
    search_query: String,
    is_running: bool,
}

/// What the screen shows first.
pub struct ModelParameters {
    pub commands: Vec<command::Presenter>,
    pub page_number: u32,
    pub page_size: u32,
    pub powershell_no_exit: bool,
    pub search_query: String,
    pub workspace: workspace::Presenter,
}

/// The screen, as a value.
pub struct ModelView {
    pub workspace: workspace::PresenterView,
    pub commands: Seq<command::PresenterView>,
    pub redirect: Option<ScreenRouteView>,
    /// The selected row, as ratatui's `ListState` holds it.
    pub selected: Option<usize>,
    pub no_exit: bool,
    pub page_number: u32,
    pub page_size: u32,
    pub input: SmartInputView,
    pub search_query: Seq<char>,
    pub running: bool,
}

impl View for Model {
    type V = ModelView;

    closed spec fn view(&self) -> ModelView {
        ModelView {
            workspace: self.workspace@,
            commands: self.commands@.map_values(|c: command::Presenter| c@),
            redirect: screen_route_view(self.redirect),
            selected: self.selected,
            no_exit: self.no_exit,
            page_number: self.page_number,
            page_size: self.page_size,
            input: self.smart_input@,
            search_query: self.search_query@,
            running: self.is_running,
        }
    }
}

/// The command under the selection, if the selection is on one.
pub open spec fn selected_command(s: ModelView) -> Option<command::PresenterView> {
    match s.selected {
        Some(i) => if i < s.commands.len() { Some(s.commands[i as int]) } else { None },
        None => None,
    }
}

/// Page `page` of the commands matching `query`.
pub open spec fn page_route(s: ModelView, query: Seq<char>, page: u32) -> ScreenRouteView {
    ScreenRouteView::Workspaces(
        workspaces::RouteView::Commands(
            workspaces::commands::RouteView::List(
                ListWorkspaceCommandsParametersView {
                    workspace_id: s.workspace.id,
                    search_query: query,
                    page_number: page,
                    page_size: s.page_size,
                    powershell_no_exit: s.no_exit,
                },
            ),
        ),
    )
}

/// The screen with its prompt changed.
pub open spec fn with_input(s: ModelView, input: SmartInputView) -> ModelView {
    ModelView { input, ..s }
}

/// The prompt emptied.
pub open spec fn reset(s: ModelView) -> ModelView {
    with_input(s, edit(s.input, |v: InputView| v.delete_all_chars()))
}

/// After an edit of the prompt: a search lists its first page anew.
pub open spec fn reload(s: ModelView) -> ModelView {
    match value_of(s.input) {
        Some(ValueView::Base(q)) => ModelView { redirect: Some(page_route(s, q, 0)), ..s },
        _ => s,
    }
}

/// The workspace's location, empty when it has none.
pub open spec fn working_directory(s: ModelView) -> Seq<char> {
    match s.workspace.location {
        Some(l) => l,
        None => Seq::empty(),
    }
}

/// Running the selected command: it moves to the top, where the selection
/// follows it.
pub open spec fn executed(s: ModelView) -> ModelView {
    match selected_command(s) {
        Some(c) => ModelView {
            commands: s.commands.remove(s.selected->0 as int).insert(0, c),
            redirect: Some(
                ScreenRouteView::Powershell(
                    powershell::RouteView::ExecuteCommand(
                        PowerShellExecuteCommandParametersView {
                            command_id: c.id,
                            workspace_id: c.workspace_id,
                            powershell_no_exit: s.no_exit,
                        },
                    ),
                ),
            ),
            selected: Some(0usize),
            ..s
        },
        None => s,
    }
}

/// Esc empties the prompt and, when the page was listed with a search,
/// lists the first page without one.
pub open spec fn cancelled(s: ModelView) -> ModelView {
    if s.search_query.len() > 0 {
        ModelView { redirect: Some(page_route(s, Seq::empty(), 0)), ..reset(s) }
    } else {
        reset(s)
    }
}

/// Moving down: past the last row of a full page asks for the next page
/// with the same search; past the last row of a page that is not full,
/// nothing; elsewhere the selection moves down.
pub open spec fn moved_down(s: ModelView) -> ModelView {
    match s.selected {
        None => s,
        Some(i) => if i + 1 == s.commands.len() {
            if s.commands.len() < s.page_size {
                s
            } else {
                ModelView { redirect: Some(page_route(s, s.search_query, (s.page_number + 1) as u32)), ..s }
            }
        } else {
            ModelView { selected: next_selection(s.selected), ..s }
        },
    }
}

/// Whether moving down asks for the next page: the last row of a full page
/// is selected.
pub open spec fn asks_next_page(s: ModelView) -> bool {
    s.selected matches Some(i) && i + 1 == s.commands.len() && s.commands.len() >= s.page_size
}

/// Moving up: above the first row, or with nothing selected, asks for the
/// previous page, if there is one; elsewhere the selection moves up.
pub open spec fn moved_up(s: ModelView) -> ModelView {
    match s.selected {
        None => if s.page_number != 0 {
            ModelView { redirect: Some(page_route(s, s.search_query, (s.page_number - 1) as u32)), ..s }
        } else {
            s
        },
        Some(i) => if i == 0 {
            if s.page_number == 0 {
                s
            } else {
                ModelView { redirect: Some(page_route(s, s.search_query, (s.page_number - 1) as u32)), ..s }
            }
        } else {
            ModelView { selected: previous_selection(s.selected), ..s }
        },
    }
}

/// What a command of the prompt does.
pub open spec fn action_done(s: ModelView, a: Action) -> ModelView {
    match a {
        Action::DeleteCommand => match selected_command(s) {
            Some(c) => ModelView {
                redirect: Some(
                    ScreenRouteView::Workspaces(
                        workspaces::RouteView::Commands(
                            workspaces::commands::RouteView::Delete(
                                DeleteWorkspaceCommandParametersView { workspace_id: s.workspace.id, command_id: c.id },
                            ),
                        ),
                    ),
                ),
                ..s
            },
            None => s,
        },
        Action::EditCommand => match selected_command(s) {
            Some(c) => ModelView {
                redirect: Some(
                    ScreenRouteView::Workspaces(
                        workspaces::RouteView::Commands(
                            workspaces::commands::RouteView::Edit(
                                EditWorkspaceCommandParametersView { workspace_id: s.workspace.id, command_id: c.id },
                            ),
                        ),
                    ),
                ),
                ..s
            },
            None => s,
        },
        Action::Exit => ModelView { running: false, ..s },
        Action::ListWorkspaces => ModelView {
            redirect: Some(
                ScreenRouteView::Workspaces(
                    workspaces::RouteView::List(
                        list::ParametersView { page_number: 0, page_size: s.page_size, search_query: Seq::empty() },
                    ),
                ),
            ),
            ..s
        },
        Action::NewCommand => ModelView {
            redirect: Some(
                ScreenRouteView::Workspaces(
                    workspaces::RouteView::Commands(
                        workspaces::commands::RouteView::New(new::ParametersView { workspace_id: s.workspace.id }),
                    ),
                ),
            ),
            ..s
        },
        Action::CopyToClipboard => reset(
            ModelView {
                redirect: match selected_command(s) {
                    Some(c) => Some(
                        ScreenRouteView::Powershell(
                            powershell::RouteView::CopyToClipboard(
                                CopyToClipboardParametersView { workspace_id: s.workspace.id, command_id: c.id },
                            ),
                        ),
                    ),
                    None => None,
                },
                ..s
            },
        ),
        Action::StartWindowsTerminal => reset(
            ModelView {
                redirect: Some(
                    ScreenRouteView::Powershell(
                        powershell::RouteView::StartWindowsTerminal(
                            OpenWindowsTerminalParametersView { working_directory: working_directory(s) },
                        ),
                    ),
                ),
                ..s
            },
        ),
        Action::PowerShellSetNoExit => reset(ModelView { no_exit: true, ..s }),
        Action::PowerShellUnsetNoExit => reset(ModelView { no_exit: false, ..s }),
    }
}

/// Enter: unless the prompt holds a command, it is emptied; a command is
/// done. `None` when the prompt names no command of the screen.
pub open spec fn submitted(s: ModelView) -> Option<ModelView> {
    match value_of(s.input) {
        Some(ValueView::Command(name)) => match action_named(name) {
            Some(a) => Some(action_done(s, a)),
            None => None,
        },
        _ => Some(reset(s)),
    }
}

/// The screen after a message; `None` when the message fails.
pub open spec fn update(s: ModelView, m: Message) -> Option<ModelView> {
    match m {
        Message::Cancel => Some(cancelled(s)),
        Message::ExecuteCommand => Some(executed(s)),
        Message::DeleteAllChars => Some(reload(reset(s))),
        Message::DeleteChar => Some(reload(with_input(s, edit(s.input, |v: InputView| v.delete_char())))),
        Message::EnterChar(c) => Some(reload(with_input(s, edit(s.input, |v: InputView| v.enter_char(c))))),
        Message::MoveCusorLeft => Some(with_input(s, edit(s.input, |v: InputView| v.move_cursor_left()))),
        Message::MoveCusorRight => Some(with_input(s, edit(s.input, |v: InputView| v.move_cursor_right()))),
        Message::SelectNext => Some(moved_down(s)),
        Message::SelectPrevious => Some(moved_up(s)),
        Message::Submit => submitted(s),
        Message::Tab => Some(with_input(s, toggled(s.input))),
    }
}

/// Running a command runs the selected one: the route asked for carries the
/// id and workspace of the command that was selected, that command moves to
/// the top of the list and stays selected, the commands above it move down
/// one row, and those below it stay where they were.
pub proof fn lemma_execute_runs_the_selected_command(s: ModelView, i: usize)
    requires
        s.selected == Some(i),
        i < s.commands.len(),
    ensures
        ({
            let t = update(s, Message::ExecuteCommand)->0;
            &&& t.redirect == Some(
                ScreenRouteView::Powershell(
                    powershell::RouteView::ExecuteCommand(
                        PowerShellExecuteCommandParametersView {
                            command_id: s.commands[i as int].id,
                            workspace_id: s.commands[i as int].workspace_id,
                            powershell_no_exit: s.no_exit,
                        },
                    ),
                ),
            )
            &&& t.commands.len() == s.commands.len()
            &&& t.commands[0] == s.commands[i as int]
            &&& t.selected == Some(0usize)
            &&& forall|j: int| 0 <= j < i ==> #[trigger] t.commands[j + 1] == s.commands[j]
            &&& forall|j: int| i < j < s.commands.len() ==> #[trigger] t.commands[j] == s.commands[j]
        }),
{
    let c = s.commands[i as int];
    let t = update(s, Message::ExecuteCommand)->0;
    assert(t.commands == s.commands.remove(i as int).insert(0, c));
    assert forall|j: int| 0 <= j < i implies #[trigger] t.commands[j + 1] == s.commands[j] by {
        assert(s.commands.remove(i as int)[j] == s.commands[j]);
    }
    assert forall|j: int| i < j < s.commands.len() implies #[trigger] t.commands[j] == s.commands[j] by {
        assert(s.commands.remove(i as int)[j - 1] == s.commands[j]);
    }
}

/// Moving down and then running a command runs the command below the one
/// that was selected.
pub proof fn lemma_execute_after_moving_down_runs_the_next_command(s: ModelView, i: usize)
    requires
        s.selected == Some(i),
        i + 1 < s.commands.len(),
        s.commands.len() <= usize::MAX,
    ensures
        update(update(s, Message::SelectNext)->0, Message::ExecuteCommand)->0.redirect == Some(
            ScreenRouteView::Powershell(
                powershell::RouteView::ExecuteCommand(
                    PowerShellExecuteCommandParametersView {
                        command_id: s.commands[i + 1].id,
                        workspace_id: s.commands[i + 1].workspace_id,
                        powershell_no_exit: s.no_exit,
                    },
                ),
            ),
        ),
{
    let m = update(s, Message::SelectNext)->0;
    assert(m.selected == Some((i + 1) as usize));
    lemma_execute_runs_the_selected_command(m, (i + 1) as usize);
}

impl Model {
    /// The screen listing `commands`, the first selected, the prompt
    /// holding the search the page was listed with.
    pub fn new(parameters: ModelParameters) -> (r: Model)
        ensures
            r@.workspace == parameters.workspace@,
            r@.commands == parameters.commands@.map_values(|c: command::Presenter| c@),
            r@.selected == (if parameters.commands@.len() > 0 { Some(0usize) } else { None }),
            r@.no_exit == parameters.powershell_no_exit,
            r@.page_number == parameters.page_number,
            r@.page_size == parameters.page_size,
            r@.input.input == InputView::with_text(parameters.search_query@),
            r@.input.commands == labels(),
            r@.search_query == parameters.search_query@,
            r@.redirect is None,
            r@.running,
    {
        let ModelParameters { commands, page_number, page_size, powershell_no_exit, search_query, workspace } =
            parameters;
        let selected = if commands.len() > 0 {
            select_first(None)
        } else {
            None
        };
        let mut smart_input = SmartInput::new(
            NewSmartInputParameters { commands: prompt_labels(), theme: Theme::plain() },
        );
        let query = crate::text::chars_of(search_query.as_str());
        let mut i: usize = 0;
        proof {
            assert(query@.take(0) =~= Seq::<char>::empty());
        }
        while i < query.len()
            invariant
                i <= query.len(),
                smart_input@.commands == labels(),
                smart_input@.input == InputView::with_text(query@.take(i as int)),
            decreases query.len() - i,
        {
            smart_input.enter_char(query[i]);
            proof {
                assert(query@.take(i as int).insert(i as int, query@[i as int]) =~= query@.take(i as int + 1));
            }
            i = i + 1;
        }
        proof {
            assert(query@.take(query@.len() as int) =~= query@);
        }
        Model {
            selected,
            commands,
            page_number,
            page_size,
            no_exit: powershell_no_exit,
            redirect: None,
            smart_input,
            workspace,
            search_query,
            is_running: true,
        }
    }

    /// Whether the screen still runs.
    pub fn is_running(&self) -> (r: bool)
        ensures
            r == self@.running,
    {
        self.is_running
    }

    /// The route the screen asks for, handed over once.
    pub fn redirect(&mut self) -> (r: Option<ScreenRoute>)
        ensures
            screen_route_view(r) == old(self)@.redirect,
            final(self)@ == (ModelView { redirect: None, ..old(self)@ }),
    {
        self.redirect.take()
    }

    /// Handles a message. Enter on a prompt that names no command of the
    /// screen fails, naming it, and changes nothing. Moving down asks for
    /// the next page only while there is a next page number.
    pub fn update(&mut self, message: Message) -> (r: Result<(), ModelError>)
        requires
            message is SelectNext && asks_next_page(old(self)@) ==> old(self)@.page_number < u32::MAX,
        ensures
            match r {
                Ok(()) => update(old(self)@, message) == Some(final(self)@),
                Err(ModelError::UnknownAction(name)) => update(old(self)@, message) is None
                    && final(self)@ == old(self)@
                    && value_of(old(self)@.input) == Some(ValueView::Command(name@)),
            },
    {
        match message {
            Message::Cancel => self.cancel(),
            Message::ExecuteCommand => self.execute_command(),
            Message::DeleteAllChars => {
                self.smart_input.reset_input();
                self.reload();
            },
            Message::DeleteChar => {
                self.smart_input.delete_char();
                self.reload();
            },
            Message::EnterChar(c) => {
                self.smart_input.enter_char(c);
                self.reload();
            },
            Message::MoveCusorLeft => self.smart_input.move_cursor_left(),
            Message::MoveCusorRight => self.smart_input.move_cursor_right(),
            Message::SelectNext => self.select_next(),
            Message::SelectPrevious => self.select_previous(),
            Message::Submit => {
                return self.submit();
            },
            Message::Tab => self.smart_input.toggle_input(),
        }
        Ok(())
    }

    /// The commands shown.
    pub fn commands(&self) -> (r: &Vec<command::Presenter>)
        ensures
            r@.map_values(|c: command::Presenter| c@) == self@.commands,
    {
        &self.commands
    }

    /// The selected row, as ratatui's `ListState` holds it.
    pub fn selected(&self) -> (r: Option<usize>)
        ensures
            r == self@.selected,
    {
        self.selected
    }

    /// Takes back the selection as drawing left it.
    pub fn set_selected(&mut self, selected: Option<usize>)
        ensures
            final(self)@ == (ModelView { selected, ..old(self)@ }),
    {
        self.selected = selected;
    }

    /// The prompt.
    pub fn smart_input(&self) -> (r: &SmartInput)
        ensures
            r@ == self@.input,
    {
        &self.smart_input
    }

    /// The workspace whose commands are listed.
    pub fn workspace(&self) -> (r: &workspace::Presenter)
        ensures
            r@ == self@.workspace,
    {
        &self.workspace
    }

    /// The path to the list, shown on the status line: the workspaces, the
    /// workspace, its commands and the page, then the selected command, if any.
    pub fn breadcrumbs(&self) -> (r: Vec<String>)
        ensures
            r@.map_values(|s: String| s@) == seq![
                "List workspaces"@,
                self@.workspace.name,
                "List commands"@ + seq![' ', '('] + decimal(self@.page_number as nat) + seq![')'],
            ] + (match selected_command(self@) {
                Some(c) => seq![c.name],
                None => Seq::<Seq<char>>::empty(),
            }),
    {
        let mut r: Vec<String> = Vec::new();
        r.push(owned("List workspaces"));
        r.push(owned(self.workspace.name.as_str()));
        r.push(labelled_number("List commands", self.page_number));
        if let Some(command) = self.command() {
            r.push(owned(command.name.as_str()));
        }
        proof {
            assert(r@.map_values(|s: String| s@) =~= seq![
                "List workspaces"@,
                self@.workspace.name,
                "List commands"@ + seq![' ', '('] + decimal(self@.page_number as nat) + seq![')'],
            ] + (match selected_command(self@) {
                Some(c) => seq![c.name],
                None => Seq::<Seq<char>>::empty(),
            }));
        }
        r
    }

    /// The page shown, counted from 0.
    pub fn page_number(&self) -> (r: u32)
        ensures
            r == self@.page_number,
    {
        self.page_number
    }

    fn page_redirect(&mut self, search_query: String, page_number: u32)
        ensures
            final(self)@ == (ModelView {
                redirect: Some(page_route(old(self)@, search_query@, page_number)),
                ..old(self)@
            }),
    {
        self.redirect = Some(
            ScreenRoute::Workspaces(
                workspaces::Route::Commands(
                    workspaces::commands::Route::List(
                        ListWorkspaceCommandsParameters {
                            workspace_id: owned(self.workspace.id.as_str()),
                            search_query,
                            page_number,
                            page_size: self.page_size,
                            powershell_no_exit: self.no_exit,
                        },
                    ),
                ),
            ),
        );
    }

    fn reload(&mut self)
        ensures
            final(self)@ == reload(old(self)@),
    {
        if let Some(Value::Base(search_query)) = self.smart_input.value() {
            self.page_redirect(search_query, 0);
        }
    }

    fn cancel(&mut self)
        ensures
            final(self)@ == cancelled(old(self)@),
    {
        self.smart_input.reset_input();
        if !self.search_query.as_str().is_empty() {
            self.page_redirect(String::new(), 0);
        }
    }

    fn command(&self) -> (r: Option<&command::Presenter>)
        ensures
            match r {
                Some(c) => selected_command(self@) == Some(c@),
                None => selected_command(self@) is None,
            },
    {
        match self.selected {
            Some(index) => if index < self.commands.len() {
                Some(&self.commands[index])
            } else {
                None
            },
            None => None,
        }
    }

    fn execute_command(&mut self)
        ensures
            final(self)@ == executed(old(self)@),
    {
        let index = match self.selected {
            Some(index) => index,
            None => {
                return;
            },
        };
        if index >= self.commands.len() {
            return;
        }
        let ghost before = self.commands@;
        let command = self.commands.remove(index);
        self.redirect = Some(
            ScreenRoute::Powershell(
                powershell::Route::ExecuteCommand(
                    PowerShellExecuteCommandParameters {
                        command_id: owned(command.id.as_str()),
                        workspace_id: owned(command.workspace_id.as_str()),
                        powershell_no_exit: self.no_exit,
                    },
                ),
            ),
        );
        self.commands.insert(0, command);
        self.selected = select_first(self.selected);
        proof {
            assert(self.commands@ == before.remove(index as int).insert(0, before[index as int]));
            assert(self@.commands =~= old(self)@.commands.remove(index as int).insert(
                0,
                old(self)@.commands[index as int],
            ));
        }
    }

    fn select_next(&mut self)
        requires
            asks_next_page(old(self)@) ==> old(self)@.page_number < u32::MAX,
        ensures
            final(self)@ == moved_down(old(self)@),
    {
        let index = match self.selected {
            Some(index) => index,
            None => {
                return;
            },
        };
        if self.commands.len() > 0 && index == self.commands.len() - 1 {
            if self.commands.len() < self.page_size as usize {
                return;
            }
            let query = owned(self.search_query.as_str());
            self.page_redirect(query, self.page_number + 1);
            return;
        }
        self.selected = select_next(self.selected);
    }

    fn select_previous(&mut self)
        ensures
            final(self)@ == moved_up(old(self)@),
    {
        match self.selected {
            None => {
                if self.page_number != 0 {
                    let query = owned(self.search_query.as_str());
                    self.page_redirect(query, self.page_number - 1);
                }
            },
            Some(index) => {
                if index == 0 {
                    if self.page_number != 0 {
                        let query = owned(self.search_query.as_str());
                        self.page_redirect(query, self.page_number - 1);
                    }
                } else {
                    self.selected = select_previous(self.selected);
                }
            },
        }
    }

    fn do_action(&mut self, action: Action)
        ensures
            final(self)@ == action_done(old(self)@, action),
    {
        match action {
            Action::DeleteCommand => {
                if let Some(command) = self.command() {
                    let command_id = owned(command.id.as_str());
                    self.redirect = Some(
                        ScreenRoute::Workspaces(
                            workspaces::Route::Commands(
                                workspaces::commands::Route::Delete(
                                    DeleteWorkspaceCommandParameters {
                                        workspace_id: owned(self.workspace.id.as_str()),
                                        command_id,
                                    },
                                ),
                            ),
                        ),
                    );
                }
            },
            Action::EditCommand => {
                if let Some(command) = self.command() {
                    let command_id = owned(command.id.as_str());
                    self.redirect = Some(
                        ScreenRoute::Workspaces(
                            workspaces::Route::Commands(
                                workspaces::commands::Route::Edit(
                                    EditWorkspaceCommandParameters {
                                        workspace_id: owned(self.workspace.id.as_str()),
                                        command_id,
                                    },
                                ),
                            ),
                        ),
                    );
                }
            },
            Action::Exit => {
                self.is_running = false;
            },
            Action::ListWorkspaces => {
                self.redirect = Some(
                    ScreenRoute::Workspaces(
                        workspaces::Route::List(
                            list::Parameters { page_number: 0, page_size: self.page_size, search_query: String::new() },
                        ),
                    ),
                );
            },
            Action::NewCommand => {
                self.redirect = Some(
                    ScreenRoute::Workspaces(
                        workspaces::Route::Commands(
                            workspaces::commands::Route::New(
                                new::Parameters { workspace_id: owned(self.workspace.id.as_str()) },
                            ),
                        ),
                    ),
                );
            },
            Action::CopyToClipboard => {
                self.redirect = match self.command() {
                    Some(command) => Some(
                        ScreenRoute::Powershell(
                            powershell::Route::CopyToClipboard(
                                CopyToClipboardParameters {
                                    workspace_id: owned(self.workspace.id.as_str()),
                                    command_id: owned(command.id.as_str()),
                                },
                            ),
                        ),
                    ),
                    None => None,
                };
                self.smart_input.reset_input();
            },
            Action::StartWindowsTerminal => {
                let working_directory = match &self.workspace.location {
                    Some(location) => owned(location.as_str()),
                    None => String::new(),
                };
                self.redirect = Some(
                    ScreenRoute::Powershell(
                        powershell::Route::StartWindowsTerminal(OpenWindowsTerminalParameters { working_directory }),
                    ),
                );
                self.smart_input.reset_input();
            },
            Action::PowerShellSetNoExit => {
                self.no_exit = true;
                self.smart_input.reset_input();
            },
            Action::PowerShellUnsetNoExit => {
                self.no_exit = false;
                self.smart_input.reset_input();
            },
        }
    }

    fn submit(&mut self) -> (r: Result<(), ModelError>)
        ensures
            match r {
                Ok(()) => submitted(old(self)@) == Some(final(self)@),
                Err(ModelError::UnknownAction(name)) => submitted(old(self)@) is None
                    && final(self)@ == old(self)@
                    && value_of(old(self)@.input) == Some(ValueView::Command(name@)),
            },
    {
        let command = match self.smart_input.value() {
            Some(Value::Command(command)) => command,
            _ => {
                self.smart_input.reset_input();
                return Ok(());
            },
        };
        let action = match Action::parse(command.as_str()) {
            Ok(action) => action,
            Err(e) => {
                return Err(e);
            },
        };
        self.do_action(action);
        Ok(())
    }
}

/// Moving down and then up on the same page comes back to the same row.
pub proof fn lemma_down_then_up(s: ModelView)
    requires
        s.selected matches Some(i) && i + 1 < s.commands.len(),
        s.commands.len() <= usize::MAX,
    ensures
        update(update(s, Message::SelectNext)->0, Message::SelectPrevious) == Some(s),
{
    let i = s.selected->0;
    let t = moved_down(s);
    assert(t == ModelView { selected: Some((i + 1) as usize), ..s });
    assert(moved_up(t) == ModelView { selected: Some(i), ..s });
}

/// The paging asked for never changes the search the page was listed
/// with, and moves by one page at a time.
pub proof fn lemma_paging_keeps_the_search(s: ModelView, m: Message)
    requires
        m is SelectNext || m is SelectPrevious,
        update(s, m) matches Some(t) && t.redirect != s.redirect,
    ensures
        update(s, m) matches Some(t) && (t.redirect == Some(page_route(s, s.search_query, (s.page_number + 1) as u32))
            || t.redirect == Some(page_route(s, s.search_query, (s.page_number - 1) as u32))),
{
}

} // verus!
