//! The state of the terminal program.
use vstd::prelude::*;

verus! {

/// What the screen shows.
#[derive(Clone, Copy, Debug, PartialEq, Eq, Structural)]
pub enum Context {
    Workspaces,
    WorkspaceForm,
    Commands,
    CommandForm,
    NotionBackupCredentialsForm,
}

/// Whether keys act as commands or are typed into an input.
#[derive(Clone, Copy, Debug, PartialEq, Eq, Structural)]
pub enum Mode {
    Normal,
    Input,
}

/// Whether a notice reports a success or a failure.
#[derive(Clone, Copy, Debug, PartialEq, Eq, Structural)]
pub enum NoticeKind {
    Success,
    Error,
}

/// A message shown to the user after an operation.
#[derive(Debug, PartialEq, Eq)]
pub struct Notice {
    pub message: String,
    pub kind: NoticeKind,
}

/// The inputs of a form and the one that has the focus.
#[derive(Debug, PartialEq, Eq)]
pub struct Form {
    pub inputs: Vec<String>,
    pub cursor: usize,
}

/// One line of a list: the record's id and the text shown for it.
#[derive(Debug, PartialEq, Eq)]
pub struct ListItem {
    pub id: u128,
    pub text: String,
}

/// The records listed on screen, the selected one and the filter typed.
#[derive(Debug, PartialEq, Eq)]
pub struct List {
    pub items: Vec<ListItem>,
    pub cursor: usize,
    pub filter: String,
}

/// Everything the program shows and remembers between key presses.
#[derive(Debug, PartialEq, Eq)]
pub struct State {
    pub context: Context,
    pub mode: Mode,
    pub form: Form,
    pub list: List,
    pub workspace_id: Option<u128>,
    pub command_id: Option<u128>,
    pub notice: Option<Notice>,
}

/// A list line, as a value.
pub struct ListItemView {
    pub id: u128,
    pub text: Seq<char>,
}

/// A notice, as a value.
pub struct NoticeView {
    pub kind: NoticeKind,
    pub message: Seq<char>,
}

/// The program state, as a value.
pub struct StateView {
    pub context: Context,
    pub mode: Mode,
    pub inputs: Seq<Seq<char>>,
    pub input_cursor: nat,
    pub items: Seq<ListItemView>,
    pub item_cursor: nat,
    pub filter: Seq<char>,
    pub workspace_id: Option<u128>,
    pub command_id: Option<u128>,
    pub notice: Option<NoticeView>,
}

impl View for ListItem {
    type V = ListItemView;

    open spec fn view(&self) -> ListItemView {
        ListItemView { id: self.id, text: self.text@ }
    }
}

impl View for Notice {
    type V = NoticeView;

    open spec fn view(&self) -> NoticeView {
        NoticeView { kind: self.kind, message: self.message@ }
    }
}

pub open spec fn string_view(s: String) -> Seq<char> {
    s@
}

pub open spec fn item_view(i: ListItem) -> ListItemView {
    i@
}

pub open spec fn notice_view(n: Option<Notice>) -> Option<NoticeView> {
    match n {
        Some(n) => Some(n@),
        None => None,
    }
}

impl View for State {
    type V = StateView;

    open spec fn view(&self) -> StateView {
        StateView {
            context: self.context,
            mode: self.mode,
            inputs: self.form.inputs@.map_values(|s: String| s@),
            input_cursor: self.form.cursor as nat,
            items: self.list.items@.map_values(|i: ListItem| i@),
            item_cursor: self.list.cursor as nat,
            filter: self.list.filter@,
            workspace_id: self.workspace_id,
            command_id: self.command_id,
            notice: notice_view(self.notice),
        }
    }
}

impl Context {
    /// The screens that show a form.
    pub open spec fn is_form(self) -> bool {
        self is WorkspaceForm || self is CommandForm || self is NotionBackupCredentialsForm
    }

    /// How many inputs the form of this screen has.
    pub open spec fn form_len(self) -> nat {
        match self {
            Context::WorkspaceForm => 2,
            Context::CommandForm => 2,
            Context::NotionBackupCredentialsForm => 3,
            _ => 0,
        }
    }
}

impl StateView {
    /// The list cursor points at an item, or is 0 when the list is empty;
    /// a form screen has as many inputs as its form has fields and the focus
    /// is on one of them.
    pub open spec fn wf(self) -> bool {
        &&& (self.items.len() == 0 ==> self.item_cursor == 0)
        &&& (self.items.len() > 0 ==> self.item_cursor < self.items.len())
        &&& (self.context.is_form() ==> self.inputs.len() == self.context.form_len()
            && self.input_cursor < self.inputs.len())
    }

    /// The id of the item under the cursor, when the list is not empty.
    pub open spec fn selected_item_id(self) -> Option<u128> {
        if self.items.len() == 0 {
            None
        } else {
            Some(self.items[self.item_cursor as int].id)
        }
    }
}

impl Form {
    /// A form with no input.
    pub fn empty() -> (r: Form)
        ensures
            r.inputs@.len() == 0,
            r.cursor == 0,
    {
        Form { inputs: Vec::new(), cursor: 0 }
    }

    /// A form with the given number of empty inputs, the focus on the first.
    pub fn blank(len: usize) -> (r: Form)
        ensures
            r.inputs@.len() == len,
            forall|i: int| 0 <= i < len ==> (#[trigger] r.inputs@[i])@ == Seq::<char>::empty(),
            r.cursor == 0,
    {
        let mut inputs: Vec<String> = Vec::new();
        let mut i: usize = 0;
        while i < len
            invariant
                i <= len,
                inputs@.len() == i,
                forall|j: int| 0 <= j < i ==> (#[trigger] inputs@[j])@ == Seq::<char>::empty(),
            decreases len - i,
        {
            inputs.push(String::new());
            i = i + 1;
        }
        Form { inputs, cursor: 0 }
    }
}

impl List {
    /// A list showing `items`, the first one under the cursor, with no filter.
    pub fn of(items: Vec<ListItem>) -> (r: List)
        ensures
            r.items@ == items@,
            r.cursor == 0,
            r.filter@ == Seq::<char>::empty(),
    {
        List { items, cursor: 0, filter: String::new() }
    }
}

impl State {
    /// The program as it starts: the list of workspaces, empty, in normal mode.
    pub fn initial() -> (r: State)
        ensures
            r@.context == Context::Workspaces,
            r@.mode == Mode::Normal,
            r@.inputs.len() == 0,
            r@.input_cursor == 0,
            r@.items.len() == 0,
            r@.item_cursor == 0,
            r@.filter.len() == 0,
            r@.workspace_id is None,
            r@.command_id is None,
            r@.notice is None,
            r@.wf(),
    {
        State {
            context: Context::Workspaces,
            mode: Mode::Normal,
            form: Form::empty(),
            list: List::of(Vec::new()),
            workspace_id: None,
            command_id: None,
            notice: None,
        }
    }
}

} // verus!
