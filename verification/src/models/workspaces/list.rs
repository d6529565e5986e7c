//! The workspaces, one page at a time (pages numbered from 0), with a
//! prompt that searches them or, once toggled, runs one of the screen's
//! commands.
use vstd::prelude::*;
use crate::error::ModelError;
use crate::input::InputView;
use crate::message::Message;
use crate::parameters::{
    workspaces::{commands::list::PAGE_SIZE as COMMANDS_PAGE_SIZE, edit, list},
    DeleteWorkspaceParameters, DeleteWorkspaceParametersView, ListWorkspaceCommandsParameters,
    ListWorkspaceCommandsParametersView,
};
use crate::presenters::workspace::{Presenter, PresenterView};
use crate::routes::{screen_route_view, workspaces, ScreenRoute, ScreenRouteView};
use crate::selection::{next_selection, previous_selection, select_first, select_next, select_previous};
use crate::smart_input::{
    edit as edit_input, toggled, value_of, NewSmartInputParameters, SmartInput, SmartInputView, Value,
    ValueView,
};
use crate::text::{decimal, labelled_number, owned, str_eq};
use crate::theme::Theme;

verus! {

/// A command of the prompt.
#[derive(Clone, Copy, Debug, PartialEq, Eq, Structural)]
pub enum Action {
    DeleteWorkspace,
    EditWorkspace,
    Exit,
    ListCommands,
    NewWorkspace,
}

/// The name of a command, as the prompt shows it.
pub open spec fn label(a: Action) -> Seq<char> {
    match a {
        Action::DeleteWorkspace => "Delete workspace"@,
        Action::EditWorkspace => "Edit workspace"@,
        Action::Exit => "Exit"@,
        Action::ListCommands => "List commands"@,
        Action::NewWorkspace => "New workspace"@,
    }
}

/// The names the prompt offers, in order.
pub open spec fn labels() -> Seq<Seq<char>> {
    seq![
        label(Action::DeleteWorkspace),
        label(Action::EditWorkspace),
        label(Action::Exit),
        label(Action::ListCommands),
        label(Action::NewWorkspace),
    ]
}

/// The command named `name`, if there is one.
pub open spec fn action_named(name: Seq<char>) -> Option<Action> {
    if name == label(Action::DeleteWorkspace) {
        Some(Action::DeleteWorkspace)
    } else if name == label(Action::EditWorkspace) {
        Some(Action::EditWorkspace)
    } else if name == label(Action::Exit) {
        Some(Action::Exit)
    } else if name == label(Action::ListCommands) {
        Some(Action::ListCommands)
    } else if name == label(Action::NewWorkspace) {
        Some(Action::NewWorkspace)
    } else {
        None
    }
}

impl Action {
    /// The name of the command.
    pub fn label(self) -> (r: String)
        ensures
            r@ == label(self),
    {
        match self {
            Action::DeleteWorkspace => owned("Delete workspace"),
            Action::EditWorkspace => owned("Edit workspace"),
            Action::Exit => owned("Exit"),
            Action::ListCommands => owned("List commands"),
            Action::NewWorkspace => owned("New workspace"),
        }
    }

    /// The command named `value`; an error naming it when there is none.
    pub fn parse(value: &str) -> (r: Result<Action, ModelError>)
        ensures
            match r {
                Ok(a) => action_named(value@) == Some(a) && label(a) == value@,
                Err(ModelError::UnknownAction(name)) => action_named(value@) is None && name@ == value@,
            },
            match r {
                Ok(_) => true,
                Err(e) => e.message_text() == "Unknown action: "@ + value@,
            },
    {
        if str_eq(value, "Delete workspace") {
            Ok(Action::DeleteWorkspace)
        } else if str_eq(value, "Edit workspace") {
            Ok(Action::EditWorkspace)
        } else if str_eq(value, "Exit") {
            Ok(Action::Exit)
        } else if str_eq(value, "List commands") {
            Ok(Action::ListCommands)
        } else if str_eq(value, "New workspace") {
            Ok(Action::NewWorkspace)
        } else {
            Err(ModelError::UnknownAction(owned(value)))
        }
    }
}

/// A command's name names that command.
pub proof fn lemma_label_names_action(a: Action)
    ensures
        action_named(label(a)) == Some(a),
{
    reveal_strlit("Delete workspace");
    reveal_strlit("Edit workspace");
    reveal_strlit("Exit");
    reveal_strlit("List commands");
    reveal_strlit("New workspace");
    assert(label(Action::DeleteWorkspace).len() == 16);
    assert(label(Action::EditWorkspace).len() == 14);
    assert(label(Action::Exit).len() == 4);
    assert(label(Action::ListCommands).len() == 13);
    assert(label(Action::NewWorkspace).len() == 13);
    assert(label(Action::ListCommands)[0] != label(Action::NewWorkspace)[0]);
}

fn prompt_labels() -> (r: Vec<String>)
    ensures
        r@.map_values(|s: String| s@) == labels(),
{
    let mut r: Vec<String> = Vec::new();
    r.push(Action::DeleteWorkspace.label());
    r.push(Action::EditWorkspace.label());
    r.push(Action::Exit.label());
    r.push(Action::ListCommands.label());
    r.push(Action::NewWorkspace.label());
    proof {
        assert(r@.map_values(|s: String| s@) =~= labels());
    }
    r
}

/// The list of workspaces.
pub struct Model {
    is_running: bool,
    redirect: Option<ScreenRoute>,
    selected: Option<usize>,
    workspaces: Vec<Presenter>,
    page_number: u32,
    page_size: u32,
    smart_input: SmartInput,
    search_query: String,
}

/// What the list shows first.
pub struct ModelParameters {
    pub workspaces: Vec<Presenter>,
    pub search_query: String,
    pub page_number: u32,
    pub page_size: u32,
}

/// The list, as a value.
pub struct ModelView {
    pub running: bool,
    pub redirect: Option<ScreenRouteView>,
    /// The selected row, as ratatui's `ListState` holds it.
    pub selected: Option<usize>,
    pub workspaces: Seq<PresenterView>,
    pub page_number: u32,
    pub page_size: u32,
    pub input: SmartInputView,
    pub search_query: Seq<char>,
}

impl View for Model {
    type V = ModelView;

    closed spec fn view(&self) -> ModelView {
        ModelView {
            running: self.is_running,
            redirect: screen_route_view(self.redirect),
            selected: self.selected,
            workspaces: self.workspaces@.map_values(|w: Presenter| w@),
            page_number: self.page_number,
            page_size: self.page_size,
            input: self.smart_input@,
            search_query: self.search_query@,
        }
    }
}

/// The workspace under the selection, if the selection is on one.
pub open spec fn selected_workspace(s: ModelView) -> Option<PresenterView> {
    match s.selected {
        Some(i) => if i < s.workspaces.len() { Some(s.workspaces[i as int]) } else { None },
        None => None,
    }
}

/// Page `page` of the workspaces matching `query`.
pub open spec fn page_route(s: ModelView, query: Seq<char>, page: u32) -> ScreenRouteView {
    ScreenRouteView::Workspaces(
        workspaces::RouteView::List(list::ParametersView { search_query: query, page_number: page, page_size: s.page_size }),
    )
}

/// The list with its prompt changed.
pub open spec fn with_input(s: ModelView, input: SmartInputView) -> ModelView {
    ModelView { input, ..s }
}

/// The prompt emptied.
pub open spec fn reset(s: ModelView) -> ModelView {
    with_input(s, edit_input(s.input, |v: InputView| v.delete_all_chars()))
}

/// After an edit of the prompt: a search lists its first page anew.
pub open spec fn reload(s: ModelView) -> ModelView {
    match value_of(s.input) {
        Some(ValueView::Base(q)) => ModelView { redirect: Some(page_route(s, q, 0)), ..s },
        _ => s,
    }
}

/// Esc empties the prompt and, when the page was listed with a search,
/// lists the first page without one, in pages of the usual size.
pub open spec fn cancelled(s: ModelView) -> ModelView {
    if s.search_query.len() > 0 {
        ModelView {
            redirect: Some(
                ScreenRouteView::Workspaces(
                    workspaces::RouteView::List(
                        list::ParametersView { search_query: Seq::empty(), page_number: 0, page_size: list::PAGE_SIZE },
                    ),
                ),
            ),
            ..reset(s)
        }
    } else {
        reset(s)
    }
}

/// Moving down: past the last row of a full page asks for the next page
/// with the same search; elsewhere the selection moves down.
pub open spec fn moved_down(s: ModelView) -> ModelView {
    match s.selected {
        None => s,
        Some(i) => if i + 1 == s.workspaces.len() && s.workspaces.len() == s.page_size {
            ModelView { redirect: Some(page_route(s, s.search_query, (s.page_number + 1) as u32)), ..s }
        } else {
            ModelView { selected: next_selection(s.selected), ..s }
        },
    }
}

/// Whether moving down asks for the next page: the last row of a full page
/// is selected.
pub open spec fn asks_next_page(s: ModelView) -> bool {
    s.selected matches Some(i) && i + 1 == s.workspaces.len() && s.workspaces.len() == s.page_size
}

/// Moving up: above the first row, or with nothing selected, asks for the
/// previous page if there is one; elsewhere the selection moves up.
pub open spec fn moved_up(s: ModelView) -> ModelView {
    match s.selected {
        None => if s.page_number != 0 {
            ModelView { redirect: Some(page_route(s, s.search_query, (s.page_number - 1) as u32)), ..s }
        } else {
            s
        },
        Some(i) => if i == 0 && s.page_number != 0 {
            ModelView { redirect: Some(page_route(s, s.search_query, (s.page_number - 1) as u32)), ..s }
        } else {
            ModelView { selected: previous_selection(s.selected), ..s }
        },
    }
}

/// What a command of the prompt does.
pub open spec fn action_done(s: ModelView, a: Action) -> ModelView {
    match a {
        Action::DeleteWorkspace => match selected_workspace(s) {
            Some(w) => ModelView {
                redirect: Some(
                    ScreenRouteView::Workspaces(workspaces::RouteView::Delete(DeleteWorkspaceParametersView { id: w.id })),
                ),
                ..s
            },
            None => s,
        },
        Action::EditWorkspace => match selected_workspace(s) {
            Some(w) => ModelView {
                redirect: Some(ScreenRouteView::Workspaces(workspaces::RouteView::Edit(edit::ParametersView { id: w.id }))),
                ..s
            },
            None => s,
        },
        Action::Exit => ModelView { running: false, ..s },
        Action::ListCommands => match selected_workspace(s) {
            Some(w) => ModelView {
                redirect: Some(
                    ScreenRouteView::Workspaces(
                        workspaces::RouteView::Commands(
                            workspaces::commands::RouteView::List(
                                ListWorkspaceCommandsParametersView {
                                    workspace_id: w.id,
                                    search_query: Seq::empty(),
                                    page_number: 0,
                                    page_size: COMMANDS_PAGE_SIZE,
                                    powershell_no_exit: false,
                                },
                            ),
                        ),
                    ),
                ),
                ..s
            },
            None => s,
        },
        Action::NewWorkspace => ModelView { redirect: Some(ScreenRouteView::Workspaces(workspaces::RouteView::New)), ..s },
    }
}

/// Enter: unless the prompt holds a command, it is emptied; a command is
/// done. `None` when the prompt names no command of the screen.
pub open spec fn submitted(s: ModelView) -> Option<ModelView> {
    match value_of(s.input) {
        Some(ValueView::Command(name)) => match action_named(name) {
            Some(a) => Some(action_done(s, a)),
            None => None,
        },
        _ => Some(reset(s)),
    }
}

/// The list after a message; `None` when the message fails.
pub open spec fn update(s: ModelView, m: Message) -> Option<ModelView> {
    match m {
        Message::DeleteAllChars => Some(reload(reset(s))),
        Message::DeleteChar => Some(reload(with_input(s, edit_input(s.input, |v: InputView| v.delete_char())))),
        Message::EnterChar(c) => Some(reload(with_input(s, edit_input(s.input, |v: InputView| v.enter_char(c))))),
        Message::Cancel => Some(cancelled(s)),
        Message::MoveCusorLeft => Some(with_input(s, edit_input(s.input, |v: InputView| v.move_cursor_left()))),
        Message::MoveCusorRight => Some(with_input(s, edit_input(s.input, |v: InputView| v.move_cursor_right()))),
        Message::SelectNext => Some(moved_down(s)),
        Message::SelectPrevious => Some(moved_up(s)),
        Message::Submit => submitted(s),
        Message::Tab => Some(with_input(s, toggled(s.input))),
        Message::ExecuteCommand => Some(s),
    }
}

impl Model {
    /// The list of `workspaces`, the first selected, the prompt holding the
    /// search the page was listed with.
    pub fn new(parameters: ModelParameters) -> (r: Model)
        ensures
            r@.running,
            r@.redirect is None,
            r@.workspaces == parameters.workspaces@.map_values(|w: Presenter| w@),
            r@.selected == (if parameters.workspaces@.len() > 0 { Some(0usize) } else { None }),
            r@.page_number == parameters.page_number,
            r@.page_size == parameters.page_size,
            r@.input.input == InputView::with_text(parameters.search_query@),
            r@.input.commands == labels(),
            r@.search_query == parameters.search_query@,
    {
        let ModelParameters { workspaces, search_query, page_number, page_size } = parameters;
        let selected = if workspaces.len() > 0 {
            select_first(None)
        } else {
            None
        };
        let mut smart_input = SmartInput::new(
            NewSmartInputParameters { commands: prompt_labels(), theme: Theme::plain() },
        );
        let query = crate::text::chars_of(search_query.as_str());
        let mut i: usize = 0;
        proof {
            assert(query@.take(0) =~= Seq::<char>::empty());
        }
        while i < query.len()
            invariant
                i <= query.len(),
                smart_input@.commands == labels(),
                smart_input@.input == InputView::with_text(query@.take(i as int)),
            decreases query.len() - i,
        {
            smart_input.enter_char(query[i]);
            proof {
                assert(query@.take(i as int).insert(i as int, query@[i as int]) =~= query@.take(i as int + 1));
            }
            i = i + 1;
        }
        proof {
            assert(query@.take(query@.len() as int) =~= query@);
        }
        Model {
            workspaces,
            redirect: None,
            selected,
            is_running: true,
            page_number,
            page_size,
            smart_input,
            search_query,
        }
    }

    /// Whether the list still runs.
    pub fn is_running(&self) -> (r: bool)
        ensures
            r == self@.running,
    {
        self.is_running
    }

    /// The route the list asks for, handed over once.
    pub fn redirect(&mut self) -> (r: Option<ScreenRoute>)
        ensures
            screen_route_view(r) == old(self)@.redirect,
            final(self)@ == (ModelView { redirect: None, ..old(self)@ }),
    {
        self.redirect.take()
    }

    /// Handles a message. Enter on a prompt that names no command of the
    /// screen fails, naming it, and changes nothing. Moving down asks for
    /// the next page only while there is a next page number.
    pub fn update(&mut self, message: Message) -> (r: Result<(), ModelError>)
        requires
            message is SelectNext && asks_next_page(old(self)@) ==> old(self)@.page_number < u32::MAX,
        ensures
            match r {
                Ok(()) => update(old(self)@, message) == Some(final(self)@),
                Err(ModelError::UnknownAction(name)) => update(old(self)@, message) is None
                    && final(self)@ == old(self)@
                    && value_of(old(self)@.input) == Some(ValueView::Command(name@)),
            },
    {
        match message {
            Message::DeleteAllChars => {
                self.smart_input.reset_input();
                self.reload();
            },
            Message::DeleteChar => {
                self.smart_input.delete_char();
                self.reload();
            },
            Message::EnterChar(c) => {
                self.smart_input.enter_char(c);
                self.reload();
            },
            Message::Cancel => self.cancel(),
            Message::MoveCusorLeft => self.smart_input.move_cursor_left(),
            Message::MoveCusorRight => self.smart_input.move_cursor_right(),
            Message::SelectNext => self.select_next(),
            Message::SelectPrevious => self.select_previous(),
            Message::Submit => {
                return self.submit();
            },
            Message::Tab => self.smart_input.toggle_input(),
            Message::ExecuteCommand => {},
        }
        Ok(())
    }

    /// The workspaces shown.
    pub fn workspaces(&self) -> (r: &Vec<Presenter>)
        ensures
            r@.map_values(|w: Presenter| w@) == self@.workspaces,
    {
        &self.workspaces
    }

    /// The selected row, as ratatui's `ListState` holds it.
    pub fn selected(&self) -> (r: Option<usize>)
        ensures
            r == self@.selected,
    {
        self.selected
    }

    /// Takes back the selection as drawing left it.
    pub fn set_selected(&mut self, selected: Option<usize>)
        ensures
            final(self)@ == (ModelView { selected, ..old(self)@ }),
    {
        self.selected = selected;
    }

    /// The prompt.
    pub fn smart_input(&self) -> (r: &SmartInput)
        ensures
            r@ == self@.input,
    {
        &self.smart_input
    }

    /// The path to the list, shown on the status line: the list and its
    /// page, then the selected workspace, if any.
    pub fn breadcrumbs(&self) -> (r: Vec<String>)
        ensures
            r@.map_values(|s: String| s@) == (match selected_workspace(self@) {
                Some(w) => seq!["List workspaces"@ + seq![' ', '('] + decimal(self@.page_number as nat) + seq![')'], w.name],
                None => seq!["List workspaces"@ + seq![' ', '('] + decimal(self@.page_number as nat) + seq![')']],
            }),
    {
        let mut r: Vec<String> = Vec::new();
        r.push(labelled_number("List workspaces", self.page_number));
        if let Some(workspace) = self.workspace() {
            r.push(owned(workspace.name.as_str()));
        }
        proof {
            assert(r@.map_values(|s: String| s@) =~= (match selected_workspace(self@) {
                Some(w) => seq!["List workspaces"@ + seq![' ', '('] + decimal(self@.page_number as nat) + seq![')'], w.name],
                None => seq!["List workspaces"@ + seq![' ', '('] + decimal(self@.page_number as nat) + seq![')']],
            }));
        }
        r
    }

    /// The page shown, counted from 0.
    pub fn page_number(&self) -> (r: u32)
        ensures
            r == self@.page_number,
    {
        self.page_number
    }

    fn set_list_workspaces_redirect(&mut self, search_query: String, page_number: u32)
        ensures
            final(self)@ == (ModelView { redirect: Some(page_route(old(self)@, search_query@, page_number)), ..old(self)@ }),
    {
        self.redirect = Some(
            ScreenRoute::Workspaces(
                workspaces::Route::List(list::Parameters { search_query, page_number, page_size: self.page_size }),
            ),
        );
    }

    fn reload(&mut self)
        ensures
            final(self)@ == reload(old(self)@),
    {
        if let Some(Value::Base(search_query)) = self.smart_input.value() {
            self.set_list_workspaces_redirect(search_query, 0);
        }
    }

    fn cancel(&mut self)
        ensures
            final(self)@ == cancelled(old(self)@),
    {
        self.smart_input.reset_input();
        if !self.search_query.as_str().is_empty() {
            self.redirect = Some(ScreenRoute::Workspaces(workspaces::Route::List(list::Parameters::default())));
        }
    }

    fn workspace(&self) -> (r: Option<&Presenter>)
        ensures
            match r {
                Some(w) => selected_workspace(self@) == Some(w@),
                None => selected_workspace(self@) is None,
            },
    {
        match self.selected {
            Some(i) => if i < self.workspaces.len() {
                Some(&self.workspaces[i])
            } else {
                None
            },
            None => None,
        }
    }

    fn select_next(&mut self)
        requires
            asks_next_page(old(self)@) ==> old(self)@.page_number < u32::MAX,
        ensures
            final(self)@ == moved_down(old(self)@),
    {
        let index = match self.selected {
            Some(index) => index,
            None => {
                return;
            },
        };
        let len = self.workspaces.len();
        if len > 0 && index == len - 1 && len == self.page_size as usize {
            let query = owned(self.search_query.as_str());
            self.set_list_workspaces_redirect(query, self.page_number + 1);
            return;
        }
        self.selected = select_next(self.selected);
    }

    fn select_previous(&mut self)
        ensures
            final(self)@ == moved_up(old(self)@),
    {
        match self.selected {
            None => {
                if self.page_number != 0 {
                    let query = owned(self.search_query.as_str());
                    self.set_list_workspaces_redirect(query, self.page_number - 1);
                }
            },
            Some(index) => {
                if index == 0 && self.page_number != 0 {
                    let query = owned(self.search_query.as_str());
                    self.set_list_workspaces_redirect(query, self.page_number - 1);
                    return;
                }
                self.selected = select_previous(self.selected);
            },
        }
    }

    fn do_action(&mut self, action: Action)
        ensures
            final(self)@ == action_done(old(self)@, action),
    {
        match action {
            Action::DeleteWorkspace => {
                if let Some(workspace) = self.workspace() {
                    let id = owned(workspace.id.as_str());
                    self.redirect = Some(ScreenRoute::Workspaces(workspaces::Route::Delete(DeleteWorkspaceParameters { id })));
                }
            },
            Action::EditWorkspace => {
                if let Some(workspace) = self.workspace() {
                    let id = owned(workspace.id.as_str());
                    self.redirect = Some(ScreenRoute::Workspaces(workspaces::Route::Edit(edit::Parameters { id })));
                }
            },
            Action::Exit => {
                self.is_running = false;
            },
            Action::ListCommands => {
                if let Some(workspace) = self.workspace() {
                    let workspace_id = owned(workspace.id.as_str());
                    self.redirect = Some(
                        ScreenRoute::Workspaces(
                            workspaces::Route::Commands(
                                workspaces::commands::Route::List(
                                    ListWorkspaceCommandsParameters {
                                        workspace_id,
                                        search_query: String::new(),
                                        page_number: 0,
                                        page_size: COMMANDS_PAGE_SIZE,
                                        powershell_no_exit: false,
                                    },
                                ),
                            ),
                        ),
                    );
                }
            },
            Action::NewWorkspace => {
                self.redirect = Some(ScreenRoute::Workspaces(workspaces::Route::New));
            },
        }
    }

    fn submit(&mut self) -> (r: Result<(), ModelError>)
        ensures
            match r {
                Ok(()) => submitted(old(self)@) == Some(final(self)@),
                Err(ModelError::UnknownAction(name)) => submitted(old(self)@) is None
                    && final(self)@ == old(self)@
                    && value_of(old(self)@.input) == Some(ValueView::Command(name@)),
            },
    {
        let command = match self.smart_input.value() {
            Some(Value::Command(command)) => command,
            _ => {
                self.smart_input.reset_input();
                return Ok(());
            },
        };
        let action = match Action::parse(command.as_str()) {
            Ok(action) => action,
            Err(e) => {
                return Err(e);
            },
        };
        self.do_action(action);
        Ok(())
    }
}

} // verus!
