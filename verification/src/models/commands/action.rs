//! The commands that the list of a workspace's commands offers in its
//! prompt, and their names.
use vstd::prelude::*;
use crate::error::ModelError;
use crate::text::{owned, str_eq};

verus! {

/// A command of the list of a workspace's commands.
#[derive(Clone, Copy, Debug, PartialEq, Eq, Structural)]
pub enum Action {
    CopyToClipboard,
    DeleteCommand,
    EditCommand,
    ExecuteCommand,
    Exit,
    ListWorkspaces,
    NewCommand,
    OpenWindowsTerminal,
    SetPowerShellNoExit,
    UnsetPowerShellNoExit,
}

/// Every command, in the order the prompt offers them.
pub open spec fn all_actions() -> Seq<Action> {
    seq![
        Action::CopyToClipboard,
        Action::DeleteCommand,
        Action::EditCommand,
        Action::ExecuteCommand,
        Action::Exit,
        Action::ListWorkspaces,
        Action::NewCommand,
        Action::OpenWindowsTerminal,
        Action::SetPowerShellNoExit,
        Action::UnsetPowerShellNoExit,
    ]
}

/// The name of a command, as the prompt shows it.
pub open spec fn label(a: Action) -> Seq<char> {
    match a {
        Action::CopyToClipboard => "Copy to clipboard"@,
        Action::DeleteCommand => "Delete command"@,
        Action::EditCommand => "Edit command"@,
        Action::ExecuteCommand => "Execute command"@,
        Action::Exit => "Exit"@,
        Action::ListWorkspaces => "List workspaces"@,
        Action::NewCommand => "New command"@,
        Action::OpenWindowsTerminal => "Open Windows Terminal"@,
        Action::SetPowerShellNoExit => "Set PowerShell -NoExit"@,
        Action::UnsetPowerShellNoExit => "Unset PowerShell -NoExit"@,
    }
}

/// The command named `name`, if there is one.
pub open spec fn action_named(name: Seq<char>) -> Option<Action> {
    if name == label(Action::CopyToClipboard) {
        Some(Action::CopyToClipboard)
    } else if name == label(Action::DeleteCommand) {
        Some(Action::DeleteCommand)
    } else if name == label(Action::EditCommand) {
        Some(Action::EditCommand)
    } else if name == label(Action::ExecuteCommand) {
        Some(Action::ExecuteCommand)
    } else if name == label(Action::Exit) {
        Some(Action::Exit)
    } else if name == label(Action::ListWorkspaces) {
        Some(Action::ListWorkspaces)
    } else if name == label(Action::NewCommand) {
        Some(Action::NewCommand)
    } else if name == label(Action::OpenWindowsTerminal) {
        Some(Action::OpenWindowsTerminal)
    } else if name == label(Action::SetPowerShellNoExit) {
        Some(Action::SetPowerShellNoExit)
    } else if name == label(Action::UnsetPowerShellNoExit) {
        Some(Action::UnsetPowerShellNoExit)
    } else {
        None
    }
}

/// The names of every command, in the order the prompt offers them.
pub open spec fn labels() -> Seq<Seq<char>> {
    all_actions().map_values(|a: Action| label(a))
}

/// The length of a command's name and its first letter, which together tell
/// the commands apart.
pub open spec fn label_shape(a: Action) -> (nat, char) {
    match a {
        Action::CopyToClipboard => (17, 'C'),
        Action::DeleteCommand => (14, 'D'),
        Action::EditCommand => (12, 'E'),
        Action::ExecuteCommand => (15, 'E'),
        Action::Exit => (4, 'E'),
        Action::ListWorkspaces => (15, 'L'),
        Action::NewCommand => (11, 'N'),
        Action::OpenWindowsTerminal => (21, 'O'),
        Action::SetPowerShellNoExit => (22, 'S'),
        Action::UnsetPowerShellNoExit => (24, 'U'),
    }
}

proof fn lemma_label_shape(a: Action)
    ensures
        label(a).len() == label_shape(a).0,
        label(a)[0] == label_shape(a).1,
{
    match a {
        Action::CopyToClipboard => { reveal_strlit("Copy to clipboard"); },
        Action::DeleteCommand => { reveal_strlit("Delete command"); },
        Action::EditCommand => { reveal_strlit("Edit command"); },
        Action::ExecuteCommand => { reveal_strlit("Execute command"); },
        Action::Exit => { reveal_strlit("Exit"); },
        Action::ListWorkspaces => { reveal_strlit("List workspaces"); },
        Action::NewCommand => { reveal_strlit("New command"); },
        Action::OpenWindowsTerminal => { reveal_strlit("Open Windows Terminal"); },
        Action::SetPowerShellNoExit => { reveal_strlit("Set PowerShell -NoExit"); },
        Action::UnsetPowerShellNoExit => { reveal_strlit("Unset PowerShell -NoExit"); },
    }
}

/// No two commands share a name.
pub proof fn lemma_labels_distinct(a: Action, b: Action)
    ensures
        label(a) == label(b) ==> a == b,
{
    lemma_label_shape(a);
    lemma_label_shape(b);
}

/// Every command's name reads back as that command, and no other name does:
/// so parsing the name of a command gives the command itself.
pub proof fn lemma_label_names_its_action(a: Action)
    ensures
        action_named(label(a)) == Some(a),
        forall|name: Seq<char>| #[trigger] action_named(name) == Some(a) <==> name == label(a),
{
    lemma_labels_distinct(a, Action::CopyToClipboard);
    lemma_labels_distinct(a, Action::DeleteCommand);
    lemma_labels_distinct(a, Action::EditCommand);
    lemma_labels_distinct(a, Action::ExecuteCommand);
    lemma_labels_distinct(a, Action::Exit);
    lemma_labels_distinct(a, Action::ListWorkspaces);
    lemma_labels_distinct(a, Action::NewCommand);
    lemma_labels_distinct(a, Action::OpenWindowsTerminal);
    lemma_labels_distinct(a, Action::SetPowerShellNoExit);
    lemma_labels_distinct(a, Action::UnsetPowerShellNoExit);
}

impl Action {
    /// Every command, in the order the prompt offers them.
    pub fn all() -> (r: Vec<Action>)
        ensures
            r@ == all_actions(),
    {
        let r = vec![
            Action::CopyToClipboard,
            Action::DeleteCommand,
            Action::EditCommand,
            Action::ExecuteCommand,
            Action::Exit,
            Action::ListWorkspaces,
            Action::NewCommand,
            Action::OpenWindowsTerminal,
            Action::SetPowerShellNoExit,
            Action::UnsetPowerShellNoExit,
        ];
        proof {
            assert(r@ =~= all_actions());
        }
        r
    }

    /// The name of the command.
    pub fn label(self) -> (r: String)
        ensures
            r@ == label(self),
    {
        match self {
            Action::CopyToClipboard => owned("Copy to clipboard"),
            Action::DeleteCommand => owned("Delete command"),
            Action::EditCommand => owned("Edit command"),
            Action::ExecuteCommand => owned("Execute command"),
            Action::Exit => owned("Exit"),
            Action::ListWorkspaces => owned("List workspaces"),
            Action::NewCommand => owned("New command"),
            Action::OpenWindowsTerminal => owned("Open Windows Terminal"),
            Action::SetPowerShellNoExit => owned("Set PowerShell -NoExit"),
            Action::UnsetPowerShellNoExit => owned("Unset PowerShell -NoExit"),
        }
    }

    /// The command named `value`; an error naming it when there is none.
    pub fn parse(value: &str) -> (r: Result<Action, ModelError>)
        ensures
            match r {
                Ok(a) => action_named(value@) == Some(a) && label(a) == value@,
                Err(ModelError::UnknownAction(name)) => action_named(value@) is None && name@ == value@,
            },
            match r {
                Ok(_) => true,
                Err(e) => e.message_text() == "Unknown action: "@ + value@,
            },
    {
        if str_eq(value, "Copy to clipboard") {
            Ok(Action::CopyToClipboard)
        } else if str_eq(value, "Delete command") {
            Ok(Action::DeleteCommand)
        } else if str_eq(value, "Edit command") {
            Ok(Action::EditCommand)
        } else if str_eq(value, "Execute command") {
            Ok(Action::ExecuteCommand)
        } else if str_eq(value, "Exit") {
            Ok(Action::Exit)
        } else if str_eq(value, "List workspaces") {
            Ok(Action::ListWorkspaces)
        } else if str_eq(value, "New command") {
            Ok(Action::NewCommand)
        } else if str_eq(value, "Open Windows Terminal") {
            Ok(Action::OpenWindowsTerminal)
        } else if str_eq(value, "Set PowerShell -NoExit") {
            Ok(Action::SetPowerShellNoExit)
        } else if str_eq(value, "Unset PowerShell -NoExit") {
            Ok(Action::UnsetPowerShellNoExit)
        } else {
            Err(ModelError::UnknownAction(owned(value)))
        }
    }
}

/// The names of every command, in the order the prompt offers them.
pub fn all_labels() -> (r: Vec<String>)
    ensures
        r@.map_values(|s: String| s@) == labels(),
{
    let actions = Action::all();
    let mut r: Vec<String> = Vec::new();
    let mut i: usize = 0;
    while i < actions.len()
        invariant
            i <= actions.len(),
            actions@ == all_actions(),
            r@.map_values(|s: String| s@) =~= labels().take(i as int),
        decreases actions.len() - i,
    {
        let name = actions[i].label();
        r.push(name);
        proof {
            assert(labels().take(i as int + 1) =~= labels().take(i as int).push(label(actions@[i as int])));
            assert(r@.map_values(|s: String| s@) =~= labels().take(i as int + 1));
        }
        i = i + 1;
    }
    proof {
        assert(labels().take(i as int) =~= labels());
    }
    r
}

impl From<Action> for String {
    /// The name of the command.
    fn from(action: Action) -> (r: String)
        ensures
            r@ == label(action),
    {
        action.label()
    }
}

impl vstd::std_specs::convert::FromSpecImpl<Action> for String {
    open spec fn obeys_from_spec() -> bool {
        false
    }

    open spec fn from_spec(action: Action) -> String {
        arbitrary()
    }
}

} // verus!
