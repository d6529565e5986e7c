//! The list of the services that backup credentials are kept for, with a
//! prompt for the screen's commands.
use vstd::prelude::*;
use crate::coordinator::BackupProviderKind;
use crate::error::ModelError;
use crate::input::InputView;
use crate::message::Message;
use crate::params::{ListWorkspacesParams, ListWorkspacesParamsView};
use crate::routes::{route_view, Route, RouteView, WorkspacesRouteView};
use crate::selection::{next_selection, previous_selection, select_next, select_previous};
use crate::smart_input::{
    autocompleted, command_of, edit, NewSmartInputParameters, SmartInput, SmartInputView,
};
use crate::status_bar::{StatusBar, StatusBarView};
use crate::text::{owned, str_eq};
use crate::theme::Theme;

verus! {

/// A command of the backup credentials list.
#[derive(Clone, Copy, Debug, PartialEq, Eq, Structural)]
pub enum Action {
    DeleteBackupCredentials,
    EditBackupCredentials,
    Exit,
    NewNotionBackupCredentials,
    ListWorkspaces,
}

/// The name of a command, as the prompt shows it.
pub open spec fn label(a: Action) -> Seq<char> {
    match a {
        Action::DeleteBackupCredentials => "Delete backup credentials"@,
        Action::EditBackupCredentials => "Edit backup credentials"@,
        Action::Exit => "Exit"@,
        Action::NewNotionBackupCredentials => "New Notion backup credentials"@,
        Action::ListWorkspaces => "List workspaces"@,
    }
}

/// Every command, in the order the prompt offers them.
pub open spec fn all_actions() -> Seq<Action> {
    seq![
        Action::DeleteBackupCredentials,
        Action::Exit,
        Action::NewNotionBackupCredentials,
        Action::EditBackupCredentials,
        Action::ListWorkspaces,
    ]
}

/// The names of every command, in the order the prompt offers them.
pub open spec fn labels() -> Seq<Seq<char>> {
    all_actions().map_values(|a: Action| label(a))
}

/// The command named `name`, if there is one.
pub open spec fn action_named(name: Seq<char>) -> Option<Action> {
    if name == label(Action::DeleteBackupCredentials) {
        Some(Action::DeleteBackupCredentials)
    } else if name == label(Action::Exit) {
        Some(Action::Exit)
    } else if name == label(Action::EditBackupCredentials) {
        Some(Action::EditBackupCredentials)
    } else if name == label(Action::NewNotionBackupCredentials) {
        Some(Action::NewNotionBackupCredentials)
    } else if name == label(Action::ListWorkspaces) {
        Some(Action::ListWorkspaces)
    } else {
        None
    }
}

impl Action {
    /// Every command, in the order the prompt offers them.
    pub fn all() -> (r: Vec<Action>)
        ensures
            r@ == all_actions(),
    {
        let r = vec![
            Action::DeleteBackupCredentials,
            Action::Exit,
            Action::NewNotionBackupCredentials,
            Action::EditBackupCredentials,
            Action::ListWorkspaces,
        ];
        proof {
            assert(r@ =~= all_actions());
        }
        r
    }

    /// The name of the command.
    pub fn label(self) -> (r: String)
        ensures
            r@ == label(self),
    {
        match self {
            Action::DeleteBackupCredentials => owned("Delete backup credentials"),
            Action::EditBackupCredentials => owned("Edit backup credentials"),
            Action::Exit => owned("Exit"),
            Action::NewNotionBackupCredentials => owned("New Notion backup credentials"),
            Action::ListWorkspaces => owned("List workspaces"),
        }
    }

    /// The command named `value`; an error naming it when there is none.
    pub fn parse(value: &str) -> (r: Result<Action, ModelError>)
        ensures
            match r {
                Ok(a) => action_named(value@) == Some(a) && label(a) == value@,
                Err(ModelError::UnknownAction(name)) => action_named(value@) is None && name@ == value@,
            },
            match r {
                Ok(_) => true,
                Err(e) => e.message_text() == "Unknown action: "@ + value@,
            },
    {
        if str_eq(value, "Delete backup credentials") {
            Ok(Action::DeleteBackupCredentials)
        } else if str_eq(value, "Exit") {
            Ok(Action::Exit)
        } else if str_eq(value, "Edit backup credentials") {
            Ok(Action::EditBackupCredentials)
        } else if str_eq(value, "New Notion backup credentials") {
            Ok(Action::NewNotionBackupCredentials)
        } else if str_eq(value, "List workspaces") {
            Ok(Action::ListWorkspaces)
        } else {
            Err(ModelError::UnknownAction(owned(value)))
        }
    }
}

fn all_labels() -> (r: Vec<String>)
    ensures
        r@.map_values(|s: String| s@) == labels(),
{
    let actions = Action::all();
    let mut r: Vec<String> = Vec::new();
    let mut i: usize = 0;
    while i < actions.len()
        invariant
            i <= actions.len(),
            actions@ == all_actions(),
            r@.map_values(|s: String| s@) =~= labels().take(i as int),
        decreases actions.len() - i,
    {
        let name = actions[i].label();
        r.push(name);
        proof {
            assert(labels().take(i as int + 1) =~= labels().take(i as int).push(label(actions@[i as int])));
            assert(r@.map_values(|s: String| s@) =~= labels().take(i as int + 1));
        }
        i = i + 1;
    }
    proof {
        assert(labels().take(i as int) =~= labels());
    }
    r
}

/// A command's name names that command.
pub proof fn lemma_label_names_action(a: Action)
    ensures
        action_named(label(a)) == Some(a),
{
    reveal_strlit("Delete backup credentials");
    reveal_strlit("Edit backup credentials");
    reveal_strlit("Exit");
    reveal_strlit("New Notion backup credentials");
    reveal_strlit("List workspaces");
    assert(label(Action::DeleteBackupCredentials).len() == 25);
    assert(label(Action::EditBackupCredentials).len() == 23);
    assert(label(Action::Exit).len() == 4);
    assert(label(Action::NewNotionBackupCredentials).len() == 29);
    assert(label(Action::ListWorkspaces).len() == 15);
}

/// The list of backup credentials.
pub struct ListBackupCredentialsModel {
    is_running: bool,
    redirect: Option<Route>,
    smart_input: SmartInput,
    backup_credentials_kinds: Vec<BackupProviderKind>,
    selected: Option<usize>,
    theme: Theme,
}

/// What the list shows.
pub struct ListBackupCredentialsModelParameters {
    pub backup_credentials_kinds: Vec<BackupProviderKind>,
    pub theme: Theme,
}

/// The list, as a value.
pub struct ListBackupCredentialsModelView {
    pub running: bool,
    pub redirect: Option<RouteView>,
    pub input: SmartInputView,
    pub kinds: Seq<BackupProviderKind>,
    /// The selected row, as ratatui's `ListState` holds it.
    pub selected: Option<usize>,
    pub theme: Theme,
}

impl View for ListBackupCredentialsModel {
    type V = ListBackupCredentialsModelView;

    closed spec fn view(&self) -> ListBackupCredentialsModelView {
        ListBackupCredentialsModelView {
            running: self.is_running,
            redirect: route_view(self.redirect),
            input: self.smart_input@,
            kinds: self.backup_credentials_kinds@,
            selected: self.selected,
            theme: self.theme,
        }
    }
}

/// The list with its prompt changed by `f`.
pub open spec fn with_input(
    s: ListBackupCredentialsModelView,
    input: SmartInputView,
) -> ListBackupCredentialsModelView {
    ListBackupCredentialsModelView { input, ..s }
}

/// Enter: with no command on the prompt the prompt is emptied; `Exit`
/// stops the list and `List workspaces` goes to the first page of
/// workspaces; the other commands do nothing yet. `None` when the prompt
/// names no command of the screen.
pub open spec fn submitted(s: ListBackupCredentialsModelView) -> Option<ListBackupCredentialsModelView> {
    match command_of(s.input) {
        None => Some(with_input(s, edit(s.input, |v: InputView| v.delete_all_chars()))),
        Some(name) => match action_named(name) {
            None => None,
            Some(Action::Exit) => Some(ListBackupCredentialsModelView { running: false, ..s }),
            Some(Action::ListWorkspaces) => Some(
                ListBackupCredentialsModelView {
                    redirect: Some(
                        RouteView::Workspaces(
                            WorkspacesRouteView::List(
                                ListWorkspacesParamsView {
                                    search_query: None,
                                    page_number: Some(1),
                                    page_size: Some(100),
                                },
                            ),
                        ),
                    ),
                    ..s
                },
            ),
            Some(_) => Some(s),
        },
    }
}

/// The list after a message; `None` when the message fails.
pub open spec fn update(s: ListBackupCredentialsModelView, m: Message) -> Option<ListBackupCredentialsModelView> {
    match m {
        Message::DeleteAllChars => Some(with_input(s, edit(s.input, |v: InputView| v.delete_all_chars()))),
        Message::DeleteChar => Some(with_input(s, edit(s.input, |v: InputView| v.delete_char()))),
        Message::EnterChar(c) => Some(with_input(s, edit(s.input, |v: InputView| v.enter_char(c)))),
        Message::Submit => submitted(s),
        Message::MoveCusorLeft => Some(with_input(s, edit(s.input, |v: InputView| v.move_cursor_left()))),
        Message::MoveCusorRight => Some(with_input(s, edit(s.input, |v: InputView| v.move_cursor_right()))),
        Message::SelectNext => Some(ListBackupCredentialsModelView { selected: next_selection(s.selected), ..s }),
        Message::SelectPrevious => Some(ListBackupCredentialsModelView { selected: previous_selection(s.selected), ..s }),
        Message::Tab => Some(with_input(s, autocompleted(s.input))),
        Message::Cancel => Some(with_input(s, edit(s.input, |v: InputView| v.delete_all_chars()))),
        Message::ExecuteCommand => Some(s),
    }
}

impl ListBackupCredentialsModel {
    /// The list of `backup_credentials_kinds`, nothing selected, the prompt
    /// empty.
    pub fn new(parameters: ListBackupCredentialsModelParameters) -> (r: ListBackupCredentialsModel)
        ensures
            r@.running,
            r@.redirect is None,
            r@.input.input == InputView::with_text(Seq::empty()),
            r@.input.commands == labels(),
            r@.kinds == parameters.backup_credentials_kinds@,
            r@.selected is None,
            r@.theme == parameters.theme,
    {
        let ListBackupCredentialsModelParameters { backup_credentials_kinds, theme } = parameters;
        let smart_input = SmartInput::new(NewSmartInputParameters { theme, commands: all_labels() });
        ListBackupCredentialsModel {
            theme,
            is_running: true,
            backup_credentials_kinds,
            selected: None,
            smart_input,
            redirect: None,
        }
    }

    /// Whether the list still runs.
    pub fn is_running(&self) -> (r: bool)
        ensures
            r == self@.running,
    {
        self.is_running
    }

    /// The route the list asks for, handed over once.
    pub fn redirect(&mut self) -> (r: Option<Route>)
        ensures
            route_view(r) == old(self)@.redirect,
            final(self)@ == (ListBackupCredentialsModelView { redirect: None, ..old(self)@ }),
    {
        self.redirect.take()
    }

    /// The status line of the list.
    pub fn status_bar(&self) -> (r: StatusBar)
        ensures
            r@ == (StatusBarView {
                operation: Some("List backup credentials"@),
                workspace: None,
                command: None,
                page: None,
                selector: None,
                pwsh: None,
                search: None,
            }),
    {
        StatusBar::builder().operation("List backup credentials").build()
    }

    /// The services listed.
    pub fn backup_credentials_kinds(&self) -> (r: &Vec<BackupProviderKind>)
        ensures
            r@ == self@.kinds,
    {
        &self.backup_credentials_kinds
    }

    /// The selected row, as ratatui's `ListState` holds it.
    pub fn selected(&self) -> (r: Option<usize>)
        ensures
            r == self@.selected,
    {
        self.selected
    }

    /// Takes back the selection as drawing left it.
    pub fn set_selected(&mut self, selected: Option<usize>)
        ensures
            final(self)@ == (ListBackupCredentialsModelView { selected, ..old(self)@ }),
    {
        self.selected = selected;
    }

    /// The prompt.
    pub fn smart_input(&self) -> (r: &SmartInput)
        ensures
            r@ == self@.input,
    {
        &self.smart_input
    }

    /// Handles a message. Enter on a prompt that names no command of the
    /// screen fails, naming it, and changes nothing.
    pub fn update(&mut self, message: Message) -> (r: Result<(), ModelError>)
        ensures
            match r {
                Ok(()) => update(old(self)@, message) == Some(final(self)@),
                Err(ModelError::UnknownAction(name)) => update(old(self)@, message) is None
                    && final(self)@ == old(self)@ && command_of(old(self)@.input) == Some(name@),
            },
    {
        match message {
            Message::DeleteAllChars => self.smart_input.reset_input(),
            Message::DeleteChar => self.smart_input.delete_char(),
            Message::EnterChar(c) => self.smart_input.enter_char(c),
            Message::Submit => {
                return self.submit();
            },
            Message::MoveCusorLeft => self.smart_input.move_cursor_left(),
            Message::MoveCusorRight => self.smart_input.move_cursor_right(),
            Message::SelectNext => {
                self.selected = select_next(self.selected);
            },
            Message::SelectPrevious => {
                self.selected = select_previous(self.selected);
            },
            Message::Tab => self.smart_input.autocomplete(),
            Message::Cancel => self.smart_input.reset_input(),
            Message::ExecuteCommand => {},
        }
        Ok(())
    }

    fn submit(&mut self) -> (r: Result<(), ModelError>)
        ensures
            match r {
                Ok(()) => submitted(old(self)@) == Some(final(self)@),
                Err(ModelError::UnknownAction(name)) => submitted(old(self)@) is None
                    && final(self)@ == old(self)@ && command_of(old(self)@.input) == Some(name@),
            },
    {
        let command = match self.smart_input.command() {
            Some(command) => command,
            None => {
                self.smart_input.reset_input();
                return Ok(());
            },
        };
        let action = match Action::parse(command.as_str()) {
            Ok(action) => action,
            Err(e) => {
                return Err(e);
            },
        };
        match action {
            Action::DeleteBackupCredentials => {},
            Action::EditBackupCredentials => {},
            Action::Exit => {
                self.is_running = false;
            },
            Action::ListWorkspaces => {
                self.redirect = Some(Route::from(ListWorkspacesParams::default()));
            },
            Action::NewNotionBackupCredentials => {},
        }
        Ok(())
    }
}

} // verus!
