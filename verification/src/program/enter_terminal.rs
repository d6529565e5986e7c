//! How the terminal program reacts to a key press, and to the answer of a
//! service. Each step changes the state and may name the next request to
//! make; the caller performs it and hands the answer to `apply_response`.
use vstd::prelude::*;
use crate::keyboard::{event_for_char, Event};
use crate::program::integration::{
    CommandRecord, CommandRecordView, NotionCredentials, NotionCredentialsView, Request,
    RequestView, Response, ResponseView, RunCommandOptions, WorkspaceRecord, WorkspaceRecordView,
};
use crate::program::state::{
    Context, Form, List, ListItem, ListItemView, Mode, Notice, NoticeKind, NoticeView, State,
    StateView,
};
use crate::text::{owned, string_pop, string_push};

verus! {

/// A change to the text of the input that has the focus.
#[derive(Clone, Copy, Debug, PartialEq, Eq, Structural)]
pub enum InputUpdate {
    AddChar(char),
    DeleteChar,
}

// ---------------------------------------------------------------------------
// The model of each step, over state values.
// ---------------------------------------------------------------------------

/// A state with the given screen and form, nothing listed, no filter, in
/// normal mode and without a notice.
pub open spec fn blank(
    context: Context,
    inputs: Seq<Seq<char>>,
    workspace_id: Option<u128>,
    command_id: Option<u128>,
) -> StateView {
    StateView {
        context,
        mode: Mode::Normal,
        inputs,
        input_cursor: 0,
        items: Seq::empty(),
        item_cursor: 0,
        filter: Seq::empty(),
        workspace_id,
        command_id,
        notice: None,
    }
}

/// The first id of a list, if it is not empty.
pub open spec fn first_id(items: Seq<ListItemView>) -> Option<u128> {
    if items.len() == 0 {
        None
    } else {
        Some(items[0].id)
    }
}

/// The workspaces screen showing `items`, the first one selected.
pub open spec fn workspaces_listed(items: Seq<ListItemView>) -> StateView {
    StateView {
        items,
        workspace_id: first_id(items),
        ..blank(Context::Workspaces, Seq::empty(), None, None)
    }
}

/// The commands screen of the current workspace showing `items`, the first
/// one selected.
pub open spec fn commands_listed(s: StateView, items: Seq<ListItemView>) -> StateView {
    StateView {
        items,
        command_id: first_id(items),
        ..blank(Context::Commands, Seq::empty(), s.workspace_id, None)
    }
}

/// The state kept in input mode with the filter the user is typing.
pub open spec fn searching(s: StateView, filter: Seq<char>) -> StateView {
    StateView { filter, mode: Mode::Input, ..s }
}

/// The state with the filter cleared.
pub open spec fn without_filter(s: StateView) -> StateView {
    StateView { filter: Seq::empty(), ..s }
}

/// Two empty inputs.
pub open spec fn two_blank() -> Seq<Seq<char>> {
    seq![Seq::<char>::empty(), Seq::<char>::empty()]
}

/// Three empty inputs.
pub open spec fn three_blank() -> Seq<Seq<char>> {
    seq![Seq::<char>::empty(), Seq::<char>::empty(), Seq::<char>::empty()]
}

/// Moving the selection down a list wraps around to the first item.
pub open spec fn select_next_item(s: StateView) -> StateView {
    match s.context {
        Context::Workspaces => if s.items.len() == 0 {
            StateView { workspace_id: None, ..s }
        } else {
            let c = (s.item_cursor + 1) % s.items.len();
            StateView { item_cursor: c, workspace_id: Some(s.items[c as int].id), ..s }
        },
        Context::Commands => if s.items.len() == 0 {
            StateView { command_id: None, ..s }
        } else {
            let c = (s.item_cursor + 1) % s.items.len();
            StateView { item_cursor: c, command_id: Some(s.items[c as int].id), ..s }
        },
        _ => s,
    }
}

/// The state after moving the selection down `k` times.
pub open spec fn select_next_times(s: StateView, k: nat) -> StateView
    decreases k,
{
    if k == 0 {
        s
    } else {
        select_next_item(select_next_times(s, (k - 1) as nat))
    }
}

/// Moving the selection down a non-empty list of workspaces or commands keeps
/// it on an item: after `k` moves it is `k` places further, counted round the
/// list, so after as many moves as there are items it is back where it
/// started.
pub proof fn lemma_select_next_cycles(s: StateView, k: nat)
    requires
        s.wf(),
        s.context == Context::Workspaces || s.context == Context::Commands,
        s.items.len() > 0,
    ensures
        select_next_times(s, k).wf(),
        select_next_times(s, k).context == s.context,
        select_next_times(s, k).items == s.items,
        select_next_times(s, k).item_cursor < s.items.len(),
        select_next_times(s, k).item_cursor == (s.item_cursor + k) % s.items.len(),
        k == s.items.len() ==> select_next_times(s, k).item_cursor == s.item_cursor,
    decreases k,
{
    let n = s.items.len() as int;
    if k == 0 {
        vstd::arithmetic::div_mod::lemma_small_mod(s.item_cursor, s.items.len());
    } else {
        lemma_select_next_cycles(s, (k - 1) as nat);
        let x = s.item_cursor + k - 1;
        vstd::arithmetic::div_mod::lemma_add_mod_noop_right(1, x, n);
        assert(1 + x == s.item_cursor + k);
    }
    if k == s.items.len() {
        vstd::arithmetic::div_mod::lemma_mod_add_multiples_vanish(s.item_cursor as int, n);
        vstd::arithmetic::div_mod::lemma_small_mod(s.item_cursor, s.items.len());
    }
}

/// Moving the selection up a list wraps around to the last item.
pub open spec fn select_previous_item(s: StateView) -> StateView {
    match s.context {
        Context::Workspaces => if s.items.len() == 0 {
            StateView { workspace_id: None, ..s }
        } else {
            let c = (s.item_cursor + s.items.len() - 1) % (s.items.len() as int);
            StateView { item_cursor: c as nat, workspace_id: Some(s.items[c].id), ..s }
        },
        Context::Commands => if s.items.len() == 0 {
            StateView { command_id: None, ..s }
        } else {
            let c = (s.item_cursor + s.items.len() - 1) % (s.items.len() as int);
            StateView { item_cursor: c as nat, command_id: Some(s.items[c].id), ..s }
        },
        _ => s,
    }
}

/// The focus moves to the next input of a form, wrapping around.
pub open spec fn focus_next(s: StateView) -> StateView {
    if s.context.is_form() {
        StateView { input_cursor: (s.input_cursor + 1) % s.inputs.len(), ..s }
    } else {
        s
    }
}

/// The empty form for a new workspace or a new command.
pub open spec fn new_item(s: StateView) -> StateView {
    match s.context {
        Context::Workspaces => blank(Context::WorkspaceForm, two_blank(), None, None),
        Context::Commands => blank(Context::CommandForm, two_blank(), s.workspace_id, None),
        _ => s,
    }
}

/// A text after one edit.
pub open spec fn edit_text(t: Seq<char>, u: InputUpdate) -> Seq<char> {
    match u {
        InputUpdate::AddChar(c) => t.push(c),
        InputUpdate::DeleteChar => if t.len() > 0 {
            t.drop_last()
        } else {
            t
        },
    }
}

/// The text that has the focus: the filter of a list, or the focused input.
pub open spec fn active_text(s: StateView) -> Seq<char> {
    if s.context.is_form() {
        s.inputs[s.input_cursor as int]
    } else {
        s.filter
    }
}

/// The state after an edit of the focused text.
pub open spec fn typed(s: StateView, u: InputUpdate) -> StateView {
    let t = edit_text(active_text(s), u);
    match s.context {
        Context::Workspaces => StateView { filter: t, ..s },
        Context::Commands => match s.workspace_id {
            Some(_) => StateView { filter: t, ..s },
            None => searching(commands_listed(s, Seq::empty()), t),
        },
        _ => StateView { inputs: s.inputs.update(s.input_cursor as int, t), ..s },
    }
}

/// The reload that an edit of a list filter asks for.
pub open spec fn typed_request(s: StateView, u: InputUpdate) -> Option<RequestView> {
    let t = edit_text(active_text(s), u);
    match s.context {
        Context::Workspaces => Some(RequestView::ListWorkspaces { name_contains: t, searching: true }),
        Context::Commands => match s.workspace_id {
            Some(w) => Some(
                RequestView::ListCommands { workspace_id: w, program_contains: t, searching: true },
            ),
            None => None,
        },
        _ => None,
    }
}

/// The request that saves the form on screen.
pub open spec fn submit_request(s: StateView) -> Option<RequestView> {
    match s.context {
        Context::WorkspaceForm => match s.workspace_id {
            Some(id) => Some(
                RequestView::UpdateWorkspace { id, name: s.inputs[0], location: s.inputs[1] },
            ),
            None => Some(RequestView::CreateWorkspace { name: s.inputs[0], location: s.inputs[1] }),
        },
        Context::CommandForm => match s.command_id {
            Some(id) => Some(
                RequestView::UpdateCommand { id, name: s.inputs[0], program: s.inputs[1] },
            ),
            None => match s.workspace_id {
                Some(w) => Some(
                    RequestView::CreateCommand {
                        workspace_id: w,
                        name: s.inputs[0],
                        program: s.inputs[1],
                    },
                ),
                None => None,
            },
        },
        Context::NotionBackupCredentialsForm => if s.inputs[0].len() == 0 && s.inputs[1].len() == 0
            && s.inputs[2].len() == 0 {
            Some(RequestView::DeleteNotionBackupCredentials)
        } else {
            Some(
                RequestView::SaveNotionBackupCredentials {
                    api_key: s.inputs[0],
                    commands_database_id: s.inputs[1],
                    workspaces_database_id: s.inputs[2],
                },
            )
        },
        _ => None,
    }
}

/// Reloading the commands of the current workspace with the filter on screen.
pub open spec fn list_commands_request(s: StateView) -> Option<RequestView> {
    match s.workspace_id {
        Some(w) => Some(
            RequestView::ListCommands { workspace_id: w, program_contains: s.filter, searching: false },
        ),
        None => None,
    }
}

/// The state right after asking for the commands: with no workspace there
/// is nothing to ask and the empty list is shown at once.
pub open spec fn listing_commands(s: StateView) -> StateView {
    match s.workspace_id {
        Some(_) => s,
        None => commands_listed(s, Seq::empty()),
    }
}

/// Reloading the workspaces with the filter on screen.
pub open spec fn list_workspaces_request(s: StateView) -> Option<RequestView> {
    Some(RequestView::ListWorkspaces { name_contains: s.filter, searching: false })
}

/// The state after a key press, before any answer of a service.
pub open spec fn update(s: StateView, e: Event) -> StateView {
    match s.mode {
        Mode::Normal => match e {
            Event::Down | Event::Char('j') => select_next_item(s),
            Event::Up | Event::Char('k') => select_previous_item(s),
            Event::Right => if s.context is Workspaces && s.workspace_id is Some {
                without_filter(s)
            } else {
                s
            },
            Event::Left => match s.context {
                Context::Workspaces => s,
                Context::CommandForm => listing_commands(without_filter(s)),
                _ => without_filter(s),
            },
            Event::Slash => if s.context is Workspaces || s.context is Commands {
                StateView { mode: Mode::Input, ..s }
            } else {
                s
            },
            Event::NumberOne => StateView {
                notice: None,
                context: Context::NotionBackupCredentialsForm,
                inputs: three_blank(),
                input_cursor: 0,
                ..s
            },
            Event::Char('d') => match s.context {
                Context::Commands => if s.items.len() == 0 {
                    listing_commands_after_delete(s)
                } else {
                    s
                },
                _ => s,
            },
            Event::Char('n') => new_item(s),
            Event::Char('i') => StateView { mode: Mode::Input, ..s },
            _ => s,
        },
        Mode::Input => match e {
            Event::Char(c) => typed(s, InputUpdate::AddChar(c)),
            Event::Backspace => typed(s, InputUpdate::DeleteChar),
            Event::Tab => focus_next(s),
            Event::Space => typed(s, InputUpdate::AddChar(' ')),
            Event::Slash => typed(s, InputUpdate::AddChar('/')),
            Event::BackSlash => typed(s, InputUpdate::AddChar('\\')),
            Event::NumberOne => typed(s, InputUpdate::AddChar('1')),
            Event::Enter => if s.context is CommandForm && s.input_cursor == 1 {
                typed(s, InputUpdate::AddChar('\n'))
            } else {
                s
            },
            Event::Esc => StateView { mode: Mode::Normal, ..s },
            _ => s,
        },
    }
}

/// The commands list right after a command was deleted, when there is no
/// workspace to reload it from.
pub open spec fn listing_commands_after_delete(s: StateView) -> StateView {
    match s.workspace_id {
        Some(_) => s,
        None => StateView { items: Seq::empty(), item_cursor: 0, ..s },
    }
}

/// Reloading the commands after a deletion.
pub open spec fn reload_commands_request(s: StateView) -> Option<RequestView> {
    match s.workspace_id {
        Some(w) => Some(RequestView::ReloadCommands { workspace_id: w, program_contains: s.filter }),
        None => None,
    }
}

/// The request a key press asks for.
pub open spec fn request(s: StateView, e: Event) -> Option<RequestView> {
    match s.mode {
        Mode::Normal => match e {
            Event::Enter => submit_request(s),
            Event::Right => if s.context is Workspaces && s.workspace_id is Some {
                list_commands_request(without_filter(s))
            } else {
                None
            },
            Event::Left => match s.context {
                Context::Workspaces => None,
                Context::CommandForm => list_commands_request(without_filter(s)),
                _ => list_workspaces_request(without_filter(s)),
            },
            Event::Space => if s.context is Commands && s.items.len() > 0 {
                Some(RequestView::RunCommand { command_id: s.selected_item_id()->0, no_exit: false })
            } else {
                None
            },
            Event::BackSlash => if s.context is Commands && s.items.len() > 0 {
                Some(RequestView::RunCommand { command_id: s.selected_item_id()->0, no_exit: true })
            } else {
                None
            },
            Event::NumberOne => Some(RequestView::GetNotionBackupCredentials),
            Event::Char('b') => match s.context {
                Context::Workspaces => Some(RequestView::BackupWorkspace { workspace_id: s.workspace_id }),
                Context::Commands => Some(RequestView::BackupCommand { command_id: s.command_id }),
                Context::NotionBackupCredentialsForm => Some(RequestView::BackupWorkspaces),
                _ => None,
            },
            Event::Char('c') => Some(RequestView::CopyCommandToClipboard { command_id: s.command_id }),
            Event::Char('d') => match s.context {
                Context::Workspaces => if s.items.len() > 0 {
                    Some(RequestView::DeleteWorkspace { id: s.selected_item_id()->0 })
                } else {
                    list_workspaces_request(s)
                },
                Context::Commands => if s.items.len() > 0 {
                    Some(RequestView::DeleteCommand { id: s.selected_item_id()->0 })
                } else {
                    reload_commands_request(s)
                },
                _ => None,
            },
            Event::Char('e') => match s.context {
                Context::Workspaces => if s.items.len() > 0 {
                    Some(RequestView::GetWorkspace { id: s.selected_item_id()->0 })
                } else {
                    None
                },
                Context::Commands => if s.items.len() > 0 {
                    Some(RequestView::GetCommand { id: s.selected_item_id()->0 })
                } else {
                    None
                },
                _ => None,
            },
            Event::Char('r') => if s.context is NotionBackupCredentialsForm {
                Some(RequestView::RestoreWorkspaces)
            } else {
                None
            },
            Event::Char('t') => Some(RequestView::OpenTerminal { workspace_id: s.workspace_id }),
            _ => None,
        },
        Mode::Input => match e {
            Event::Char(c) => typed_request(s, InputUpdate::AddChar(c)),
            Event::Backspace => typed_request(s, InputUpdate::DeleteChar),
            Event::Space => typed_request(s, InputUpdate::AddChar(' ')),
            Event::Slash => typed_request(s, InputUpdate::AddChar('/')),
            Event::BackSlash => typed_request(s, InputUpdate::AddChar('\\')),
            Event::NumberOne => typed_request(s, InputUpdate::AddChar('1')),
            Event::Enter => if s.context is CommandForm && s.input_cursor == 1 {
                typed_request(s, InputUpdate::AddChar('\n'))
            } else {
                None
            },
            _ => None,
        },
    }
}

/// A notice as a value.
pub open spec fn notice(kind: NoticeKind, message: Seq<char>) -> Option<NoticeView> {
    Some(NoticeView { kind, message })
}

/// The notice that reports how a request ended.
pub open spec fn outcome_notice(r: ResponseView, success: Seq<char>) -> Option<NoticeView> {
    match r {
        ResponseView::Failed(m) => notice(NoticeKind::Error, m),
        _ => notice(NoticeKind::Success, success),
    }
}

/// The state after a service answered a request.
pub open spec fn apply(s: StateView, q: RequestView, r: ResponseView) -> StateView {
    match q {
        RequestView::ListWorkspaces { name_contains, searching: found } => match r {
            ResponseView::Items(items) => if found {
                searching(workspaces_listed(items), name_contains)
            } else {
                workspaces_listed(items)
            },
            _ => s,
        },
        RequestView::ListCommands { program_contains, searching: found, .. } => match r {
            ResponseView::Items(items) => if found {
                searching(commands_listed(s, items), program_contains)
            } else {
                commands_listed(s, items)
            },
            _ => s,
        },
        RequestView::ReloadCommands { .. } => match r {
            ResponseView::Items(items) => StateView { items, item_cursor: 0, ..s },
            _ => s,
        },
        RequestView::GetWorkspace { .. } => match r {
            ResponseView::Workspace(Some(w)) => blank(
                Context::WorkspaceForm,
                seq![w.name, match w.location { Some(l) => l, None => Seq::empty() }],
                Some(w.id),
                None,
            ),
            _ => s,
        },
        RequestView::GetCommand { .. } => match r {
            ResponseView::Command(Some(c)) => blank(
                Context::CommandForm,
                seq![c.name, c.program],
                Some(c.workspace_id),
                Some(c.id),
            ),
            _ => s,
        },
        RequestView::GetNotionBackupCredentials => match r {
            ResponseView::NotionBackupCredentials(Some(c)) => if s.context is NotionBackupCredentialsForm {
                StateView {
                    inputs: seq![c.api_key, c.commands_database_id, c.workspaces_database_id],
                    ..s
                }
            } else {
                s
            },
            _ => s,
        },
        RequestView::CreateCommand { .. } | RequestView::UpdateCommand { .. } => match r {
            ResponseView::Done => listing_commands(s),
            _ => s,
        },
        RequestView::SaveNotionBackupCredentials { .. }
        | RequestView::DeleteNotionBackupCredentials => StateView {
            notice: outcome_notice(r, "Backup credentials saved"@),
            ..s
        },
        RequestView::DeleteCommand { .. } => match r {
            ResponseView::Done => listing_commands_after_delete(s),
            _ => s,
        },
        RequestView::BackupWorkspace { .. } => StateView {
            notice: outcome_notice(r, "Workspace backed up"@),
            ..s
        },
        RequestView::BackupCommand { .. } => StateView {
            notice: outcome_notice(r, "Command backed up"@),
            ..s
        },
        RequestView::BackupWorkspaces | RequestView::RestoreWorkspaces => StateView {
            notice: outcome_notice(r, "Workspaces backed up"@),
            ..s
        },
        RequestView::BackupCommands | RequestView::RestoreCommands => StateView {
            notice: outcome_notice(r, "Commands backed up"@),
            ..s
        },
        _ => s,
    }
}

/// The request that follows an answer.
pub open spec fn follow_up(s: StateView, q: RequestView, r: ResponseView) -> Option<RequestView> {
    match q {
        RequestView::CreateWorkspace { .. } | RequestView::UpdateWorkspace { .. }
        | RequestView::DeleteWorkspace { .. } => match r {
            ResponseView::Done => list_workspaces_request(s),
            _ => None,
        },
        RequestView::CreateCommand { .. } | RequestView::UpdateCommand { .. } => match r {
            ResponseView::Done => list_commands_request(s),
            _ => None,
        },
        RequestView::DeleteCommand { .. } => match r {
            ResponseView::Done => reload_commands_request(s),
            _ => None,
        },
        RequestView::BackupWorkspaces => match r {
            ResponseView::Failed(_) => None,
            _ => Some(RequestView::BackupCommands),
        },
        RequestView::RestoreWorkspaces => Some(RequestView::RestoreCommands),
        _ => None,
    }
}

/// The view of an optional request.
pub open spec fn request_view(r: Option<Request>) -> Option<RequestView> {
    match r {
        Some(r) => Some(r@),
        None => None,
    }
}


// ---------------------------------------------------------------------------
// The steps themselves.
// ---------------------------------------------------------------------------

fn is_form(context: Context) -> (r: bool)
    ensures
        r == context.is_form(),
{
    match context {
        Context::WorkspaceForm | Context::CommandForm | Context::NotionBackupCredentialsForm => true,
        _ => false,
    }
}

fn first_item_id(items: &Vec<ListItem>) -> (r: Option<u128>)
    ensures
        r == first_id(items@.map_values(|i: ListItem| i@)),
{
    if items.len() == 0 {
        None
    } else {
        Some(items[0].id)
    }
}

/// Shows the workspaces screen with `items`, the first one selected.
pub fn setup_workspaces_context(state: &mut State, items: Vec<ListItem>)
    ensures
        final(state)@ == workspaces_listed(items@.map_values(|i: ListItem| i@)),
        final(state)@.wf(),
{
    let workspace_id = first_item_id(&items);
    *state = State {
        context: Context::Workspaces,
        mode: Mode::Normal,
        form: Form::empty(),
        list: List::of(items),
        workspace_id,
        command_id: None,
        notice: None,
    };
    proof {
        assert(state@.inputs =~= Seq::<Seq<char>>::empty());
    }
}

/// Shows the commands screen of the current workspace with `items`, the
/// first one selected.
pub fn setup_commands_context(state: &mut State, items: Vec<ListItem>)
    ensures
        final(state)@ == commands_listed(old(state)@, items@.map_values(|i: ListItem| i@)),
        final(state)@.wf(),
{
    let command_id = first_item_id(&items);
    let workspace_id = state.workspace_id;
    *state = State {
        context: Context::Commands,
        mode: Mode::Normal,
        form: Form::empty(),
        list: List::of(items),
        workspace_id,
        command_id,
        notice: None,
    };
    proof {
        assert(state@.inputs =~= Seq::<Seq<char>>::empty());
    }
}

/// Whether the program ends: `q` pressed in normal mode.
pub fn exit(state: &State, event: Event) -> (r: bool)
    ensures
        r == (state.mode == Mode::Normal && event == Event::Char('q')),
{
    match state.mode {
        Mode::Input => false,
        Mode::Normal => match event {
            Event::Char(c) => c == 'q',
            _ => false,
        },
    }
}

/// Moves the focus to the next input of a form, wrapping around.
pub fn focus_next_input(state: &mut State)
    requires
        old(state)@.wf(),
    ensures
        final(state)@ == focus_next(old(state)@),
        final(state)@.wf(),
{
    if is_form(state.context) {
        let n = state.form.inputs.len();
        let c = state.form.cursor;
        let next = if c + 1 == n { 0 } else { c + 1 };
        state.form.cursor = next;
        proof {
            assert(next == (c + 1) % (n as int)) by (nonlinear_arith)
                requires c < n, next == (if c + 1 == n { 0 } else { c + 1 });
        }
    }
}

/// Moves the selection down the list, wrapping around, and remembers the
/// id of the workspace or command selected.
pub fn select_next_list_item(state: &mut State)
    requires
        old(state)@.wf(),
    ensures
        final(state)@ == select_next_item(old(state)@),
        final(state)@.wf(),
{
    match state.context {
        Context::Workspaces | Context::Commands => {
            let n = state.list.items.len();
            if n == 0 {
                if state.context == Context::Workspaces {
                    state.workspace_id = None;
                } else {
                    state.command_id = None;
                }
            } else {
                let c = state.list.cursor;
                let next = if c + 1 == n { 0 } else { c + 1 };
                proof {
                    assert(next == (c + 1) % (n as int)) by (nonlinear_arith)
                        requires c < n, next == (if c + 1 == n { 0 } else { c + 1 });
                }
                state.list.cursor = next;
                let id = state.list.items[next].id;
                if state.context == Context::Workspaces {
                    state.workspace_id = Some(id);
                } else {
                    state.command_id = Some(id);
                }
            }
        },
        _ => {},
    }
}

/// Moves the selection up the list, wrapping around, and remembers the id
/// of the workspace or command selected.
pub fn select_previous_list_item(state: &mut State)
    requires
        old(state)@.wf(),
    ensures
        final(state)@ == select_previous_item(old(state)@),
        final(state)@.wf(),
{
    match state.context {
        Context::Workspaces | Context::Commands => {
            let n = state.list.items.len();
            if n == 0 {
                if state.context == Context::Workspaces {
                    state.workspace_id = None;
                } else {
                    state.command_id = None;
                }
            } else {
                let c = state.list.cursor;
                let previous = if c == 0 { n - 1 } else { c - 1 };
                proof {
                    assert(previous == (c + n - 1) % (n as int)) by (nonlinear_arith)
                        requires c < n, previous == (if c == 0 { n - 1 } else { c - 1 });
                }
                state.list.cursor = previous;
                let id = state.list.items[previous].id;
                if state.context == Context::Workspaces {
                    state.workspace_id = Some(id);
                } else {
                    state.command_id = Some(id);
                }
            }
        },
        _ => {},
    }
}

/// Opens the empty form for a new workspace or a new command.
pub fn maybe_new_item(state: &mut State)
    requires
        old(state)@.wf(),
    ensures
        final(state)@ == new_item(old(state)@),
        final(state)@.wf(),
{
    let context = match state.context {
        Context::Workspaces => Context::WorkspaceForm,
        Context::Commands => Context::CommandForm,
        _ => {
            return;
        },
    };
    let workspace_id = if context == Context::CommandForm { state.workspace_id } else { None };
    *state = State {
        context,
        mode: Mode::Normal,
        form: Form::blank(2),
        list: List::of(Vec::new()),
        workspace_id,
        command_id: None,
        notice: None,
    };
    proof {
        assert(state.form.inputs@[0]@ == Seq::<char>::empty());
        assert(state.form.inputs@[1]@ == Seq::<char>::empty());
        assert(state@.inputs =~= two_blank());
        assert(state@.items =~= Seq::<ListItemView>::empty());
    }
}

fn edit_string(t: &mut String, update: InputUpdate)
    ensures
        final(t)@ == edit_text(old(t)@, update),
{
    match update {
        InputUpdate::AddChar(c) => string_push(t, c),
        InputUpdate::DeleteChar => {
            string_pop(t);
        },
    }
}

/// Applies an edit to the text that has the focus. Editing a list filter
/// asks for the list again with the new filter.
pub fn update_active_input(state: &mut State, update: InputUpdate) -> (r: Option<Request>)
    requires
        old(state)@.wf(),
    ensures
        final(state)@ == typed(old(state)@, update),
        request_view(r) == typed_request(old(state)@, update),
        final(state)@.wf(),
{
    if is_form(state.context) {
        let i = state.form.cursor;
        let mut text = state.form.inputs[i].clone();
        edit_string(&mut text, update);
        state.form.inputs.set(i, text);
        proof {
            assert(state@.inputs =~= old(state)@.inputs.update(i as int, edit_text(old(state)@.inputs[i as int], update)));
        }
        None
    } else {
        edit_string(&mut state.list.filter, update);
        match state.context {
            Context::Workspaces => Some(
                Request::ListWorkspaces { name_contains: state.list.filter.clone(), searching: true },
            ),
            _ => match state.workspace_id {
                Some(w) => Some(
                    Request::ListCommands {
                        workspace_id: w,
                        program_contains: state.list.filter.clone(),
                        searching: true,
                    },
                ),
                None => {
                    let filter = state.list.filter.clone();
                    let ghost before = old(state)@;
                    let empty: Vec<ListItem> = Vec::new();
                    proof {
                        assert(empty@.map_values(|i: ListItem| i@) =~= Seq::<ListItemView>::empty());
                    }
                    setup_commands_context(state, empty);
                    state.list.filter = filter;
                    state.mode = Mode::Input;
                    None
                },
            },
        }
    }
}


fn selected_id(state: &State) -> (r: u128)
    requires
        state@.wf(),
        state@.items.len() > 0,
    ensures
        Some(r) == state@.selected_item_id(),
{
    state.list.items[state.list.cursor].id
}

/// The request that saves the form on screen: a workspace, a command, or
/// the Notion credentials (deleted when every input is empty).
pub fn maybe_submit_form(state: &State) -> (r: Option<Request>)
    requires
        state@.wf(),
    ensures
        request_view(r) == submit_request(state@),
{
    match state.context {
        Context::WorkspaceForm => {
            let name = state.form.inputs[0].clone();
            let location = state.form.inputs[1].clone();
            match state.workspace_id {
                Some(id) => Some(Request::UpdateWorkspace { id, name, location }),
                None => Some(Request::CreateWorkspace { name, location }),
            }
        },
        Context::CommandForm => {
            let name = state.form.inputs[0].clone();
            let program = state.form.inputs[1].clone();
            match state.command_id {
                Some(id) => Some(Request::UpdateCommand { id, name, program }),
                None => match state.workspace_id {
                    Some(workspace_id) => Some(Request::CreateCommand { workspace_id, name, program }),
                    None => None,
                },
            }
        },
        Context::NotionBackupCredentialsForm => {
            let is_empty_form = state.form.inputs[0].as_str().is_empty()
                && state.form.inputs[1].as_str().is_empty()
                && state.form.inputs[2].as_str().is_empty();
            if is_empty_form {
                Some(Request::DeleteNotionBackupCredentials)
            } else {
                Some(
                    Request::SaveNotionBackupCredentials {
                        api_key: state.form.inputs[0].clone(),
                        commands_database_id: state.form.inputs[1].clone(),
                        workspaces_database_id: state.form.inputs[2].clone(),
                    },
                )
            }
        },
        _ => None,
    }
}


/// Asks for the commands of the current workspace with the filter on
/// screen; with no workspace, shows the empty list at once.
fn list_commands(state: &mut State) -> (r: Option<Request>)
    requires
        old(state)@.wf(),
    ensures
        final(state)@ == listing_commands(old(state)@),
        request_view(r) == list_commands_request(old(state)@),
        final(state)@.wf(),
{
    match state.workspace_id {
        Some(workspace_id) => Some(
            Request::ListCommands {
                workspace_id,
                program_contains: state.list.filter.clone(),
                searching: false,
            },
        ),
        None => {
            let empty: Vec<ListItem> = Vec::new();
            proof {
                assert(empty@.map_values(|i: ListItem| i@) =~= Seq::<ListItemView>::empty());
            }
            setup_commands_context(state, empty);
            None
        },
    }
}

/// Asks for the workspaces with the filter on screen.
fn list_workspaces(state: &State) -> (r: Option<Request>)
    ensures
        request_view(r) == list_workspaces_request(state@),
{
    Some(Request::ListWorkspaces { name_contains: state.list.filter.clone(), searching: false })
}

fn clear_filter(state: &mut State)
    requires
        old(state)@.wf(),
    ensures
        final(state)@ == without_filter(old(state)@),
        final(state)@.wf(),
{
    state.list.filter = String::new();
}

/// From the workspaces screen, goes to the commands of the selected workspace.
pub fn maybe_follow_selected_item(state: &mut State) -> (r: Option<Request>)
    requires
        old(state)@.wf(),
    ensures
        final(state)@ == (if old(state)@.context is Workspaces && old(state)@.workspace_id is Some {
            without_filter(old(state)@)
        } else {
            old(state)@
        }),
        request_view(r) == (if old(state)@.context is Workspaces && old(state)@.workspace_id is Some {
            list_commands_request(without_filter(old(state)@))
        } else {
            None
        }),
        final(state)@.wf(),
{
    if state.context != Context::Workspaces || state.workspace_id.is_none() {
        return None;
    }
    clear_filter(state);
    list_commands(state)
}

/// Goes back to the screen a screen was opened from: the commands list
/// from a command form, the workspaces list from anywhere else.
pub fn restore_parent_context(state: &mut State) -> (r: Option<Request>)
    requires
        old(state)@.wf(),
    ensures
        final(state)@ == (match old(state)@.context {
            Context::Workspaces => old(state)@,
            Context::CommandForm => listing_commands(without_filter(old(state)@)),
            _ => without_filter(old(state)@),
        }),
        request_view(r) == (match old(state)@.context {
            Context::Workspaces => None,
            Context::CommandForm => list_commands_request(without_filter(old(state)@)),
            _ => list_workspaces_request(without_filter(old(state)@)),
        }),
        final(state)@.wf(),
{
    match state.context {
        Context::Workspaces => None,
        Context::CommandForm => {
            clear_filter(state);
            list_commands(state)
        },
        _ => {
            clear_filter(state);
            list_workspaces(state)
        },
    }
}

/// Runs the selected command in a new terminal.
pub fn run_command(state: &State, options: RunCommandOptions) -> (r: Option<Request>)
    requires
        state@.wf(),
    ensures
        request_view(r) == (if state@.context is Commands && state@.items.len() > 0 {
            Some(RequestView::RunCommand {
                command_id: state@.selected_item_id()->0,
                no_exit: options.no_exit,
            })
        } else {
            None
        }),
{
    if state.context != Context::Commands || state.list.items.len() == 0 {
        return None;
    }
    Some(Request::RunCommand { command_id: selected_id(state), options })
}

/// Backs up the selected workspace or command; from the credentials form,
/// backs up every workspace and then every command.
pub fn maybe_backup(state: &State) -> (r: Option<Request>)
    ensures
        request_view(r) == (match state@.context {
            Context::Workspaces => Some(RequestView::BackupWorkspace { workspace_id: state@.workspace_id }),
            Context::Commands => Some(RequestView::BackupCommand { command_id: state@.command_id }),
            Context::NotionBackupCredentialsForm => Some(RequestView::BackupWorkspaces),
            _ => None,
        }),
{
    match state.context {
        Context::Workspaces => Some(Request::BackupWorkspace { workspace_id: state.workspace_id }),
        Context::Commands => Some(Request::BackupCommand { command_id: state.command_id }),
        Context::NotionBackupCredentialsForm => Some(Request::BackupWorkspaces),
        _ => None,
    }
}

/// Copies the selected command to the clipboard.
pub fn maybe_copy_item(state: &State) -> (r: Option<Request>)
    ensures
        request_view(r) == Some(RequestView::CopyCommandToClipboard { command_id: state@.command_id }),
{
    Some(Request::CopyCommandToClipboard { command_id: state.command_id })
}

/// Opens a terminal in the selected workspace.
pub fn open_terminal(state: &State) -> (r: Option<Request>)
    ensures
        request_view(r) == Some(RequestView::OpenTerminal { workspace_id: state@.workspace_id }),
{
    Some(Request::OpenTerminal { workspace_id: state.workspace_id })
}

/// From the credentials form, restores every workspace and then every command.
pub fn maybe_restore(state: &State) -> (r: Option<Request>)
    ensures
        request_view(r) == (if state@.context is NotionBackupCredentialsForm {
            Some(RequestView::RestoreWorkspaces)
        } else {
            None
        }),
{
    if state.context == Context::NotionBackupCredentialsForm {
        Some(Request::RestoreWorkspaces)
    } else {
        None
    }
}

/// Looks up the selected workspace or command, to edit it.
pub fn maybe_edit_item(state: &State) -> (r: Option<Request>)
    requires
        state@.wf(),
    ensures
        request_view(r) == (match state@.context {
            Context::Workspaces => if state@.items.len() > 0 {
                Some(RequestView::GetWorkspace { id: state@.selected_item_id()->0 })
            } else {
                None
            },
            Context::Commands => if state@.items.len() > 0 {
                Some(RequestView::GetCommand { id: state@.selected_item_id()->0 })
            } else {
                None
            },
            _ => None,
        }),
{
    match state.context {
        Context::Workspaces => if state.list.items.len() > 0 {
            Some(Request::GetWorkspace { id: selected_id(state) })
        } else {
            None
        },
        Context::Commands => if state.list.items.len() > 0 {
            Some(Request::GetCommand { id: selected_id(state) })
        } else {
            None
        },
        _ => None,
    }
}

/// Deletes the selected workspace or command and then lists again.
pub fn maybe_delete_list_item(state: &mut State) -> (r: Option<Request>)
    requires
        old(state)@.wf(),
    ensures
        final(state)@ == (match old(state)@.context {
            Context::Commands => if old(state)@.items.len() == 0 {
                listing_commands_after_delete(old(state)@)
            } else {
                old(state)@
            },
            _ => old(state)@,
        }),
        request_view(r) == (match old(state)@.context {
            Context::Workspaces => if old(state)@.items.len() > 0 {
                Some(RequestView::DeleteWorkspace { id: old(state)@.selected_item_id()->0 })
            } else {
                list_workspaces_request(old(state)@)
            },
            Context::Commands => if old(state)@.items.len() > 0 {
                Some(RequestView::DeleteCommand { id: old(state)@.selected_item_id()->0 })
            } else {
                reload_commands_request(old(state)@)
            },
            _ => None,
        }),
        final(state)@.wf(),
{
    match state.context {
        Context::Workspaces => if state.list.items.len() > 0 {
            Some(Request::DeleteWorkspace { id: selected_id(state) })
        } else {
            list_workspaces(state)
        },
        Context::Commands => if state.list.items.len() > 0 {
            Some(Request::DeleteCommand { id: selected_id(state) })
        } else {
            reload_commands(state)
        },
        _ => None,
    }
}

/// Lists the commands of the current workspace again, keeping the screen;
/// with no workspace the list is emptied at once.
fn reload_commands(state: &mut State) -> (r: Option<Request>)
    requires
        old(state)@.wf(),
    ensures
        final(state)@ == listing_commands_after_delete(old(state)@),
        request_view(r) == reload_commands_request(old(state)@),
        final(state)@.wf(),
{
    match state.workspace_id {
        Some(workspace_id) => Some(
            Request::ReloadCommands { workspace_id, program_contains: state.list.filter.clone() },
        ),
        None => {
            state.list.items = Vec::new();
            state.list.cursor = 0;
            proof {
                assert(state@.items =~= Seq::<ListItemView>::empty());
            }
            None
        },
    }
}

/// Opens the Notion credentials form, empty until the saved credentials
/// arrive.
fn open_notion_form(state: &mut State) -> (r: Option<Request>)
    requires
        old(state)@.wf(),
    ensures
        final(state)@ == (StateView {
            notice: None,
            context: Context::NotionBackupCredentialsForm,
            inputs: three_blank(),
            input_cursor: 0,
            ..old(state)@
        }),
        request_view(r) == Some(RequestView::GetNotionBackupCredentials),
        final(state)@.wf(),
{
    state.notice = None;
    state.context = Context::NotionBackupCredentialsForm;
    state.form = Form::blank(3);
    proof {
        assert(state.form.inputs@[0]@ == Seq::<char>::empty());
        assert(state.form.inputs@[1]@ == Seq::<char>::empty());
        assert(state.form.inputs@[2]@ == Seq::<char>::empty());
        assert(state@.inputs =~= three_blank());
    }
    Some(Request::GetNotionBackupCredentials)
}


/// Reacts to a key press: changes the state and names the request to make,
/// if any.
pub fn update_state(state: &mut State, event: Event) -> (r: Option<Request>)
    requires
        old(state)@.wf(),
    ensures
        final(state)@ == update(old(state)@, event),
        request_view(r) == request(old(state)@, event),
        final(state)@.wf(),
{
    match state.mode {
        Mode::Normal => match event {
            Event::Down => {
                select_next_list_item(state);
                None
            },
            Event::Up => {
                select_previous_list_item(state);
                None
            },
            Event::Enter => maybe_submit_form(state),
            Event::Right => maybe_follow_selected_item(state),
            Event::Left => restore_parent_context(state),
            Event::Space => run_command(state, RunCommandOptions { no_exit: false }),
            Event::BackSlash => run_command(state, RunCommandOptions { no_exit: true }),
            Event::Slash => {
                if state.context == Context::Workspaces || state.context == Context::Commands {
                    state.mode = Mode::Input;
                }
                None
            },
            Event::NumberOne => open_notion_form(state),
            Event::Char(c) => {
                if c == 'b' {
                    maybe_backup(state)
                } else if c == 'c' {
                    maybe_copy_item(state)
                } else if c == 'd' {
                    maybe_delete_list_item(state)
                } else if c == 'e' {
                    maybe_edit_item(state)
                } else if c == 'j' {
                    select_next_list_item(state);
                    None
                } else if c == 'k' {
                    select_previous_list_item(state);
                    None
                } else if c == 'n' {
                    maybe_new_item(state);
                    None
                } else if c == 'r' {
                    maybe_restore(state)
                } else if c == 'i' {
                    state.mode = Mode::Input;
                    None
                } else if c == 't' {
                    open_terminal(state)
                } else {
                    None
                }
            },
            Event::Esc | Event::Tab | Event::Backspace => None,
        },
        Mode::Input => match event {
            Event::Char(c) => update_active_input(state, InputUpdate::AddChar(c)),
            Event::Backspace => update_active_input(state, InputUpdate::DeleteChar),
            Event::Tab => {
                focus_next_input(state);
                None
            },
            Event::Space => update_active_input(state, InputUpdate::AddChar(' ')),
            Event::Slash => update_active_input(state, InputUpdate::AddChar('/')),
            Event::BackSlash => update_active_input(state, InputUpdate::AddChar('\\')),
            Event::NumberOne => update_active_input(state, InputUpdate::AddChar('1')),
            Event::Enter => {
                if state.context == Context::CommandForm && state.form.cursor == 1 {
                    update_active_input(state, InputUpdate::AddChar('\n'))
                } else {
                    None
                }
            },
            Event::Esc => {
                state.mode = Mode::Normal;
                None
            },
            Event::Down | Event::Up | Event::Left | Event::Right => None,
        },
    }
}

fn set_notice(state: &mut State, response: &Response, success: &str)
    requires
        old(state)@.wf(),
    ensures
        final(state)@ == (StateView { notice: outcome_notice(response@, success@), ..old(state)@ }),
        final(state)@.wf(),
{
    let notice = match response {
        Response::Failed(message) => Notice { message: message.clone(), kind: NoticeKind::Error },
        _ => Notice { message: owned(success), kind: NoticeKind::Success },
    };
    state.notice = Some(notice);
}

fn two_inputs(first: String, second: String) -> (r: Vec<String>)
    ensures
        r@.map_values(|s: String| s@) == seq![first@, second@],
{
    let mut v: Vec<String> = Vec::new();
    v.push(first);
    v.push(second);
    proof {
        assert(v@.map_values(|s: String| s@) =~= seq![first@, second@]);
    }
    v
}

/// Takes the answer of a service to `request`: shows what was listed or
/// looked up, reports how a backup or a save went, and names the request
/// that follows, if any.
pub fn apply_response(state: &mut State, request: &Request, response: Response) -> (r: Option<Request>)
    requires
        old(state)@.wf(),
    ensures
        final(state)@ == apply(old(state)@, request@, response@),
        request_view(r) == follow_up(old(state)@, request@, response@),
        final(state)@.wf(),
{
    let ghost pre = old(state)@;
    let ghost q = request@;
    let ghost a = response@;
    match request {
        Request::ListWorkspaces { name_contains, searching } => {
            if let Response::Items(items) = response {
                setup_workspaces_context(state, items);
                if *searching {
                    state.list.filter = name_contains.clone();
                    state.mode = Mode::Input;
                }
            }
            None
        },
        Request::ListCommands { program_contains, searching, .. } => {
            if let Response::Items(items) = response {
                setup_commands_context(state, items);
                if *searching {
                    state.list.filter = program_contains.clone();
                    state.mode = Mode::Input;
                }
            }
            None
        },
        Request::ReloadCommands { .. } => {
            if let Response::Items(items) = response {
                state.list.items = items;
                state.list.cursor = 0;
            }
            None
        },
        Request::GetWorkspace { .. } => {
            if let Response::Workspace(Some(workspace)) = response {
                let ghost name_view = workspace@.name;
                let ghost location_view = match workspace@.location {
                    Some(l) => l,
                    None => Seq::<char>::empty(),
                };
                let WorkspaceRecord { id, name, location } = workspace;
                let location = match location {
                    Some(l) => l,
                    None => String::new(),
                };
                *state = State {
                    context: Context::WorkspaceForm,
                    mode: Mode::Normal,
                    form: Form { inputs: two_inputs(name, location), cursor: 0 },
                    list: List::of(Vec::new()),
                    workspace_id: Some(id),
                    command_id: None,
                    notice: None,
                };
                proof {
                    assert(state@.items =~= Seq::<ListItemView>::empty());
                    assert(state@.inputs =~= seq![name_view, location_view]);
                    assert(apply(pre, q, a).inputs == seq![name_view, location_view]);
                    assert(state@ == apply(pre, q, a));
                }
            }
            None
        },
        Request::GetCommand { .. } => {
            if let Response::Command(Some(command)) = response {
                let ghost name_view = command@.name;
                let ghost program_view = command@.program;
                let CommandRecord { id, workspace_id, name, program } = command;
                *state = State {
                    context: Context::CommandForm,
                    mode: Mode::Normal,
                    form: Form { inputs: two_inputs(name, program), cursor: 0 },
                    list: List::of(Vec::new()),
                    workspace_id: Some(workspace_id),
                    command_id: Some(id),
                    notice: None,
                };
                proof {
                    assert(state@.items =~= Seq::<ListItemView>::empty());
                    assert(state@.inputs =~= seq![name_view, program_view]);
                    assert(state@ == apply(pre, q, a));
                }
            }
            None
        },
        Request::GetNotionBackupCredentials => {
            if let Response::NotionBackupCredentials(Some(credentials)) = response {
                if state.context == Context::NotionBackupCredentialsForm {
                    let NotionCredentials { api_key, commands_database_id, workspaces_database_id } =
                        credentials;
                    let mut inputs: Vec<String> = Vec::new();
                    inputs.push(api_key);
                    inputs.push(commands_database_id);
                    inputs.push(workspaces_database_id);
                    state.form.inputs = inputs;
                    proof {
                        assert(state@.inputs =~= seq![
                            credentials@.api_key,
                            credentials@.commands_database_id,
                            credentials@.workspaces_database_id,
                        ]);
                        assert(state@ == apply(pre, q, a));
                    }
                }
            }
            None
        },
        Request::CreateWorkspace { .. } | Request::UpdateWorkspace { .. }
        | Request::DeleteWorkspace { .. } => match response {
            Response::Done => list_workspaces(state),
            _ => None,
        },
        Request::CreateCommand { .. } | Request::UpdateCommand { .. } => match response {
            Response::Done => list_commands(state),
            _ => None,
        },
        Request::DeleteCommand { .. } => match response {
            Response::Done => reload_commands(state),
            _ => None,
        },
        Request::SaveNotionBackupCredentials { .. } | Request::DeleteNotionBackupCredentials => {
            set_notice(state, &response, "Backup credentials saved");
            None
        },
        Request::BackupWorkspace { .. } => {
            set_notice(state, &response, "Workspace backed up");
            None
        },
        Request::BackupCommand { .. } => {
            set_notice(state, &response, "Command backed up");
            None
        },
        Request::BackupWorkspaces => {
            set_notice(state, &response, "Workspaces backed up");
            match response {
                Response::Failed(_) => None,
                _ => Some(Request::BackupCommands),
            }
        },
        Request::RestoreWorkspaces => {
            set_notice(state, &response, "Workspaces backed up");
            Some(Request::RestoreCommands)
        },
        Request::BackupCommands | Request::RestoreCommands => {
            set_notice(state, &response, "Commands backed up");
            None
        },
        Request::CopyCommandToClipboard { .. } | Request::OpenTerminal { .. }
        | Request::RunCommand { .. } => None,
    }
}


// ---------------------------------------------------------------------------
// Laws of the program.
// ---------------------------------------------------------------------------

/// Moving the selection down and then up comes back to the same item, and
/// the program remembers that item as the selected workspace or command.
pub proof fn lemma_next_then_previous_selects_same_item(s: StateView)
    requires
        s.wf(),
        s.context is Workspaces || s.context is Commands,
        s.items.len() > 0,
    ensures
        select_previous_item(select_next_item(s)).item_cursor == s.item_cursor,
        s.context is Workspaces ==> select_previous_item(select_next_item(s)).workspace_id
            == s.selected_item_id(),
        s.context is Commands ==> select_previous_item(select_next_item(s)).command_id
            == s.selected_item_id(),
{
    let n = s.items.len() as int;
    let c = s.item_cursor as int;
    let next = (c + 1) % n;
    assert(((next + n - 1) % n) == c) by (nonlinear_arith)
        requires 0 <= c < n, next == (c + 1) % n;
}

/// Moving the selection up and then down comes back to the same item.
pub proof fn lemma_previous_then_next_selects_same_item(s: StateView)
    requires
        s.wf(),
        s.context is Workspaces || s.context is Commands,
        s.items.len() > 0,
    ensures
        select_next_item(select_previous_item(s)).item_cursor == s.item_cursor,
{
    let n = s.items.len() as int;
    let c = s.item_cursor as int;
    let previous = (c + n - 1) % n;
    assert(((previous + 1) % n) == c) by (nonlinear_arith)
        requires 0 <= c < n, previous == (c + n - 1) % n;
}

/// In a form in input mode, typing a character and then pressing Backspace
/// gives back the state as it was.
pub proof fn lemma_backspace_undoes_typing_in_form(s: StateView, c: char)
    requires
        s.wf(),
        s.mode is Input,
        s.context.is_form(),
    ensures
        update(update(s, Event::Char(c)), Event::Backspace) == s,
{
    let t = s.inputs[s.input_cursor as int];
    assert(t.push(c).drop_last() =~= t);
    assert(s.inputs.update(s.input_cursor as int, t.push(c)).update(s.input_cursor as int, t)
        =~= s.inputs);
}

/// Pressing Tab in a form moves the focus through every input and back to
/// the first one after as many presses as the form has inputs.
pub proof fn lemma_tab_cycles_through_inputs(s: StateView)
    requires
        s.wf(),
        s.mode is Input,
        s.context.is_form(),
        s.input_cursor == 0,
    ensures
        s.inputs.len() == 2 ==> update(update(s, Event::Tab), Event::Tab) == s,
        s.inputs.len() == 3 ==> update(update(update(s, Event::Tab), Event::Tab), Event::Tab) == s,
{
    assert((0nat + 1) % 2 == 1) by (nonlinear_arith);
    assert((1nat + 1) % 2 == 0) by (nonlinear_arith);
    assert((0nat + 1) % 3 == 1) by (nonlinear_arith);
    assert((1nat + 1) % 3 == 2) by (nonlinear_arith);
    assert((2nat + 1) % 3 == 0) by (nonlinear_arith);
}

/// Every key press keeps the state well formed.
pub proof fn lemma_update_keeps_state_well_formed(s: StateView, e: Event)
    requires
        s.wf(),
    ensures
        update(s, e).wf(),
{
    if s.items.len() > 0 {
        let n = s.items.len() as int;
        let c = s.item_cursor as int;
        assert(0 <= (c + 1) % n < n) by (nonlinear_arith) requires 0 <= c < n;
        assert(0 <= (c + n - 1) % n < n) by (nonlinear_arith) requires 0 <= c < n;
    }
    if s.context.is_form() {
        let n = s.inputs.len() as int;
        let c = s.input_cursor as int;
        assert(0 <= (c + 1) % n < n) by (nonlinear_arith) requires 0 <= c < n;
    }
}

/// Every answer of a service keeps the state well formed.
pub proof fn lemma_apply_keeps_state_well_formed(s: StateView, q: RequestView, r: ResponseView)
    requires
        s.wf(),
    ensures
        apply(s, q, r).wf(),
{
}

/// A backup of everything stops at the first failure: when the backup of
/// the workspaces fails, the commands are not backed up and the failure is
/// reported; when it succeeds, the backup of the commands follows.
pub proof fn lemma_backup_stops_at_first_failure(s: StateView, m: Seq<char>)
    ensures
        follow_up(s, RequestView::BackupWorkspaces, ResponseView::Failed(m)) is None,
        apply(s, RequestView::BackupWorkspaces, ResponseView::Failed(m)).notice
            == notice(NoticeKind::Error, m),
        follow_up(s, RequestView::BackupWorkspaces, ResponseView::Done)
            == Some(RequestView::BackupCommands),
{
}

/// The program ends exactly when `q` is pressed in normal mode; in input
/// mode `q` is typed like any other character.
pub proof fn lemma_q_types_in_input_mode(s: StateView)
    requires
        s.wf(),
        s.mode is Input,
        s.context.is_form(),
    ensures
        update(s, Event::Char('q')).inputs[s.input_cursor as int]
            == s.inputs[s.input_cursor as int].push('q'),
{
}

// ---------------------------------------------------------------------------
// What a user types is what is saved and searched for.
// ---------------------------------------------------------------------------

/// The state after typing `t` on the keyboard, one key per character.
pub open spec fn typed_text(s: StateView, t: Seq<char>) -> StateView
    decreases t.len(),
{
    if t.len() == 0 {
        s
    } else {
        update(typed_text(s, t.drop_last()), event_for_char(t.last()))
    }
}

/// In input mode the key of a character types that character.
proof fn lemma_key_types_its_char(s: StateView, c: char)
    requires
        s.mode is Input,
    ensures
        update(s, event_for_char(c)) == typed(s, InputUpdate::AddChar(c)),
        request(s, event_for_char(c)) == typed_request(s, InputUpdate::AddChar(c)),
{
}

/// Typing text in a form in input mode appends it to the input that has the
/// focus, and changes nothing else.
proof fn lemma_typing_appends_to_focused_input(s: StateView, t: Seq<char>)
    requires
        s.mode is Input,
        s.context.is_form(),
        s.input_cursor < s.inputs.len(),
    ensures
        typed_text(s, t) == (StateView {
            inputs: s.inputs.update(s.input_cursor as int, s.inputs[s.input_cursor as int] + t),
            ..s
        }),
    decreases t.len(),
{
    let c = s.input_cursor as int;
    if t.len() == 0 {
        assert(s.inputs[c] + t =~= s.inputs[c]);
        assert(s.inputs.update(c, s.inputs[c]) =~= s.inputs);
    } else {
        lemma_typing_appends_to_focused_input(s, t.drop_last());
        let p = typed_text(s, t.drop_last());
        lemma_key_types_its_char(p, t.last());
        assert((s.inputs[c] + t.drop_last()).push(t.last()) =~= s.inputs[c] + t);
        assert(p.inputs.update(c, (s.inputs[c] + t.drop_last()).push(t.last()))
            =~= s.inputs.update(c, s.inputs[c] + t));
    }
}

/// A two-field form on screen in normal mode, after `i`, typing `first`,
/// Tab, typing `second`, and Esc.
pub open spec fn filled_two(s: StateView, first: Seq<char>, second: Seq<char>) -> StateView {
    let a = typed_text(update(s, Event::Char('i')), first);
    update(typed_text(update(a, Event::Tab), second), Event::Esc)
}

/// A three-field form on screen in normal mode, after `i`, typing `first`,
/// Tab, `second`, Tab, `third`, and Esc.
pub open spec fn filled_three(
    s: StateView,
    first: Seq<char>,
    second: Seq<char>,
    third: Seq<char>,
) -> StateView {
    let a = typed_text(update(s, Event::Char('i')), first);
    let b = typed_text(update(a, Event::Tab), second);
    update(typed_text(update(b, Event::Tab), third), Event::Esc)
}

/// Filling a two-field form whose focus is on the first input: what was
/// typed first lands after the first input, and what was typed after Tab
/// after the second.
proof fn lemma_filling_two(s: StateView, first: Seq<char>, second: Seq<char>)
    requires
        s.mode is Normal,
        s.context is WorkspaceForm || s.context is CommandForm,
        s.inputs.len() == 2,
        s.input_cursor == 0,
    ensures
        filled_two(s, first, second) == (StateView {
            inputs: seq![s.inputs[0] + first, s.inputs[1] + second],
            input_cursor: 1,
            ..s
        }),
{
    let i = update(s, Event::Char('i'));
    lemma_typing_appends_to_focused_input(i, first);
    let a = typed_text(i, first);
    assert((0nat + 1) % 2 == 1) by (nonlinear_arith);
    let t = update(a, Event::Tab);
    lemma_typing_appends_to_focused_input(t, second);
    assert(typed_text(t, second).inputs =~= seq![s.inputs[0] + first, s.inputs[1] + second]);
}

/// Filling the three-field credentials form from its first input.
proof fn lemma_filling_three(s: StateView, first: Seq<char>, second: Seq<char>, third: Seq<char>)
    requires
        s.mode is Normal,
        s.context is NotionBackupCredentialsForm,
        s.inputs.len() == 3,
        s.input_cursor == 0,
    ensures
        filled_three(s, first, second, third) == (StateView {
            inputs: seq![s.inputs[0] + first, s.inputs[1] + second, s.inputs[2] + third],
            input_cursor: 2,
            ..s
        }),
{
    let i = update(s, Event::Char('i'));
    lemma_typing_appends_to_focused_input(i, first);
    let a = typed_text(i, first);
    assert((0nat + 1) % 3 == 1) by (nonlinear_arith);
    assert((1nat + 1) % 3 == 2) by (nonlinear_arith);
    let t = update(a, Event::Tab);
    lemma_typing_appends_to_focused_input(t, second);
    let b = typed_text(t, second);
    let u = update(b, Event::Tab);
    lemma_typing_appends_to_focused_input(u, third);
    assert(typed_text(u, third).inputs
        =~= seq![s.inputs[0] + first, s.inputs[1] + second, s.inputs[2] + third]);
}

/// A new workspace is saved with the name typed in its first field and the
/// location typed in its second: `n` on the workspaces screen, then `i`,
/// the name, Tab, the location, Esc and Enter asks to create exactly that
/// workspace.
pub proof fn lemma_new_workspace_saves_what_was_typed(
    s: StateView,
    name: Seq<char>,
    location: Seq<char>,
)
    requires
        s.mode is Normal,
        s.context is Workspaces,
    ensures
        request(filled_two(update(s, Event::Char('n')), name, location), Event::Enter)
            == Some(RequestView::CreateWorkspace { name, location }),
{
    let f = update(s, Event::Char('n'));
    lemma_filling_two(f, name, location);
    assert(Seq::<char>::empty() + name =~= name);
    assert(Seq::<char>::empty() + location =~= location);
}

/// A new command is saved in the workspace on screen with the name typed in
/// its first field and the program typed in its second.
pub proof fn lemma_new_command_saves_what_was_typed(
    s: StateView,
    w: u128,
    name: Seq<char>,
    program: Seq<char>,
)
    requires
        s.mode is Normal,
        s.context is Commands,
        s.workspace_id == Some(w),
    ensures
        request(filled_two(update(s, Event::Char('n')), name, program), Event::Enter)
            == Some(RequestView::CreateCommand { workspace_id: w, name, program }),
{
    let f = update(s, Event::Char('n'));
    lemma_filling_two(f, name, program);
    assert(Seq::<char>::empty() + name =~= name);
    assert(Seq::<char>::empty() + program =~= program);
}

/// The location of a workspace as its form shows it: empty when it has none.
pub open spec fn location_text(w: WorkspaceRecordView) -> Seq<char> {
    match w.location {
        Some(l) => l,
        None => Seq::empty(),
    }
}

/// Opening a workspace for editing and saving it gives back that workspace
/// unchanged, and text typed right after opening it goes at the end of its
/// name, not of its location.
pub proof fn lemma_edited_workspace_keeps_its_fields(
    s: StateView,
    id: u128,
    w: WorkspaceRecordView,
    more: Seq<char>,
)
    ensures
        ({
            let opened = apply(s, RequestView::GetWorkspace { id }, ResponseView::Workspace(Some(w)));
            &&& request(opened, Event::Enter) == Some(
                RequestView::UpdateWorkspace { id: w.id, name: w.name, location: location_text(w) },
            )
            &&& request(filled_two(opened, more, Seq::empty()), Event::Enter) == Some(
                RequestView::UpdateWorkspace {
                    id: w.id,
                    name: w.name + more,
                    location: location_text(w),
                },
            )
        }),
{
    let opened = apply(s, RequestView::GetWorkspace { id }, ResponseView::Workspace(Some(w)));
    lemma_filling_two(opened, more, Seq::empty());
    assert(location_text(w) + Seq::<char>::empty() =~= location_text(w));
}

/// Opening a command for editing and saving it gives back that command
/// unchanged, and text typed right after opening it goes at the end of its
/// name, not of its program.
pub proof fn lemma_edited_command_keeps_its_fields(
    s: StateView,
    id: u128,
    c: CommandRecordView,
    more: Seq<char>,
)
    ensures
        ({
            let opened = apply(s, RequestView::GetCommand { id }, ResponseView::Command(Some(c)));
            &&& request(opened, Event::Enter) == Some(
                RequestView::UpdateCommand { id: c.id, name: c.name, program: c.program },
            )
            &&& request(filled_two(opened, more, Seq::empty()), Event::Enter) == Some(
                RequestView::UpdateCommand { id: c.id, name: c.name + more, program: c.program },
            )
        }),
{
    let opened = apply(s, RequestView::GetCommand { id }, ResponseView::Command(Some(c)));
    lemma_filling_two(opened, more, Seq::empty());
    assert(c.program + Seq::<char>::empty() =~= c.program);
}

/// Whether none of three texts holds anything.
pub open spec fn all_empty(a: Seq<char>, b: Seq<char>, c: Seq<char>) -> bool {
    a.len() == 0 && b.len() == 0 && c.len() == 0
}

/// The Notion credentials are saved as typed, each in its own field: `1`,
/// then `i`, the API key, Tab, the commands database id, Tab, the
/// workspaces database id, Esc and Enter asks to save exactly those; with
/// all three empty it asks to delete the saved credentials.
pub proof fn lemma_credentials_save_what_was_typed(
    s: StateView,
    api_key: Seq<char>,
    commands_database_id: Seq<char>,
    workspaces_database_id: Seq<char>,
)
    requires
        s.mode is Normal,
    ensures
        request(
            filled_three(update(s, Event::NumberOne), api_key, commands_database_id, workspaces_database_id),
            Event::Enter,
        ) == (if all_empty(api_key, commands_database_id, workspaces_database_id) {
            Some(RequestView::DeleteNotionBackupCredentials)
        } else {
            Some(
                RequestView::SaveNotionBackupCredentials {
                    api_key,
                    commands_database_id,
                    workspaces_database_id,
                },
            )
        }),
{
    let f = update(s, Event::NumberOne);
    lemma_filling_three(f, api_key, commands_database_id, workspaces_database_id);
    assert(Seq::<char>::empty() + api_key =~= api_key);
    assert(Seq::<char>::empty() + commands_database_id =~= commands_database_id);
    assert(Seq::<char>::empty() + workspaces_database_id =~= workspaces_database_id);
}

/// Saved credentials loaded into their form are saved back unchanged, each
/// in its own field, when Enter is pressed.
pub proof fn lemma_loaded_credentials_save_unchanged(s: StateView, c: NotionCredentialsView)
    requires
        s.context is NotionBackupCredentialsForm,
        s.mode is Normal,
        !all_empty(c.api_key, c.commands_database_id, c.workspaces_database_id),
    ensures
        request(
            apply(s, RequestView::GetNotionBackupCredentials, ResponseView::NotionBackupCredentials(Some(c))),
            Event::Enter,
        ) == Some(
            RequestView::SaveNotionBackupCredentials {
                api_key: c.api_key,
                commands_database_id: c.commands_database_id,
                workspaces_database_id: c.workspaces_database_id,
            },
        ),
{
}

/// A key that edits the filter of the commands list asks for the commands
/// whose program contains the filter as it now reads (the character added,
/// or the last one removed), and the answer keeps that filter on screen.
pub proof fn lemma_commands_filter_follows_typing(
    s: StateView,
    w: u128,
    c: char,
    items: Seq<ListItemView>,
)
    requires
        s.mode is Input,
        s.context is Commands,
        s.workspace_id == Some(w),
    ensures
        update(s, event_for_char(c)).filter == s.filter.push(c),
        request(s, event_for_char(c)) == Some(
            RequestView::ListCommands { workspace_id: w, program_contains: s.filter.push(c), searching: true },
        ),
        apply(
            update(s, event_for_char(c)),
            request(s, event_for_char(c))->0,
            ResponseView::Items(items),
        ).filter == s.filter.push(c),
        update(s, Event::Backspace).filter == (if s.filter.len() > 0 {
            s.filter.drop_last()
        } else {
            s.filter
        }),
        request(s, Event::Backspace) == Some(
            RequestView::ListCommands {
                workspace_id: w,
                program_contains: update(s, Event::Backspace).filter,
                searching: true,
            },
        ),
        apply(
            update(s, Event::Backspace),
            request(s, Event::Backspace)->0,
            ResponseView::Items(items),
        ).filter == update(s, Event::Backspace).filter,
{
    lemma_key_types_its_char(s, c);
}

/// A key that edits the filter of the workspaces list asks for the
/// workspaces whose name contains the filter as it now reads, and the answer
/// keeps that filter on screen.
pub proof fn lemma_workspaces_filter_follows_typing(s: StateView, c: char, items: Seq<ListItemView>)
    requires
        s.mode is Input,
        s.context is Workspaces,
    ensures
        update(s, event_for_char(c)).filter == s.filter.push(c),
        request(s, event_for_char(c)) == Some(
            RequestView::ListWorkspaces { name_contains: s.filter.push(c), searching: true },
        ),
        apply(
            update(s, event_for_char(c)),
            request(s, event_for_char(c))->0,
            ResponseView::Items(items),
        ).filter == s.filter.push(c),
        request(s, Event::Backspace) == Some(
            RequestView::ListWorkspaces {
                name_contains: update(s, Event::Backspace).filter,
                searching: true,
            },
        ),
{
    lemma_key_types_its_char(s, c);
}

/// On a list, the keys that act on an item act on the one under the cursor:
/// Space and backslash run the command under it, `e` opens it and `d` deletes it;
/// after moving down they act on the next item, round the list.
pub proof fn lemma_item_keys_act_on_the_item_under_the_cursor(s: StateView)
    requires
        s.wf(),
        s.mode is Normal,
        s.items.len() > 0,
    ensures
        ({
            let id = s.items[s.item_cursor as int].id;
            let next = s.items[((s.item_cursor + 1) % s.items.len()) as int].id;
            &&& s.context is Commands ==> {
                &&& request(s, Event::Space) == Some(RequestView::RunCommand { command_id: id, no_exit: false })
                &&& request(s, Event::BackSlash) == Some(RequestView::RunCommand { command_id: id, no_exit: true })
                &&& request(s, Event::Char('e')) == Some(RequestView::GetCommand { id })
                &&& request(s, Event::Char('d')) == Some(RequestView::DeleteCommand { id })
                &&& request(update(s, Event::Down), Event::Space)
                    == Some(RequestView::RunCommand { command_id: next, no_exit: false })
                &&& update(s, Event::Down).command_id == Some(next)
            }
            &&& s.context is Workspaces ==> {
                &&& request(s, Event::Char('e')) == Some(RequestView::GetWorkspace { id })
                &&& request(s, Event::Char('d')) == Some(RequestView::DeleteWorkspace { id })
                &&& request(update(s, Event::Down), Event::Char('e'))
                    == Some(RequestView::GetWorkspace { id: next })
                &&& update(s, Event::Down).workspace_id == Some(next)
            }
        }),
{
    let n = s.items.len() as int;
    let c = s.item_cursor as int;
    assert(0 <= (c + 1) % n < n) by (nonlinear_arith) requires 0 <= c < n;
}

} // verus!
