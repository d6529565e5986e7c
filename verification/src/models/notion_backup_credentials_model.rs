//! The form that edits the Notion credentials that backups use: the API
//! key and the two database identifiers. An error, when one is shown,
//! covers the form until Esc dismisses it.
use vstd::prelude::*;
use crate::input::{Input, InputView};
use crate::message::Message;
use crate::params::{SaveNotionBackupCredentialsParams, SaveNotionBackupCredentialsParamsView};
use crate::routes::{route_view, BackupCredentialsRoute, BackupCredentialsRouteView, Route, RouteView};
use crate::status_bar::{opt_view, StatusBar, StatusBarView};
use crate::theme::Theme;

verus! {

/// The three inputs of the form.
#[derive(Clone, Copy, Debug, PartialEq, Eq, Structural)]
pub enum InputName {
    ApiKey,
    CommandsDatabaseId,
    WorkspacesDatabaseId,
}

/// Tab moves the focus down the form and back to the top.
pub open spec fn next_input(i: InputName) -> InputName {
    match i {
        InputName::ApiKey => InputName::CommandsDatabaseId,
        InputName::CommandsDatabaseId => InputName::WorkspacesDatabaseId,
        InputName::WorkspacesDatabaseId => InputName::ApiKey,
    }
}

impl InputName {
    /// The position of the input on screen.
    pub fn as_index(&self) -> (r: usize)
        ensures
            r == (match *self {
                InputName::ApiKey => 0usize,
                InputName::CommandsDatabaseId => 1usize,
                InputName::WorkspacesDatabaseId => 2usize,
            }),
    {
        match self {
            InputName::ApiKey => 0,
            InputName::CommandsDatabaseId => 1,
            InputName::WorkspacesDatabaseId => 2,
        }
    }

    /// The label of the input.
    pub fn as_str(&self) -> (r: &'static str)
        ensures
            *self == InputName::ApiKey ==> r@ == "API key"@,
            *self == InputName::CommandsDatabaseId ==> r@ == "Commands database ID"@,
            *self == InputName::WorkspacesDatabaseId ==> r@ == "Workspaces database ID"@,
    {
        match self {
            InputName::ApiKey => "API key",
            InputName::CommandsDatabaseId => "Commands database ID",
            InputName::WorkspacesDatabaseId => "Workspaces database ID",
        }
    }

    /// The input that Tab moves the focus to.
    pub fn next(&self) -> (r: InputName)
        ensures
            r == next_input(*self),
    {
        match self {
            InputName::ApiKey => InputName::CommandsDatabaseId,
            InputName::CommandsDatabaseId => InputName::WorkspacesDatabaseId,
            InputName::WorkspacesDatabaseId => InputName::ApiKey,
        }
    }
}

/// The Notion credentials form.
pub struct NotionBackupCredentialsModel {
    active_input: InputName,
    api_key: Input,
    commands_database_id: Input,
    error_message: Option<String>,
    redirect: Option<Route>,
    status_bar: StatusBar,
    theme: Theme,
    workspaces_database_id: Input,
}

/// The form, as a value.
pub struct NotionBackupCredentialsModelView {
    pub active_input: InputName,
    pub api_key: InputView,
    pub commands_database_id: InputView,
    pub workspaces_database_id: InputView,
    pub error_message: Option<Seq<char>>,
    pub redirect: Option<RouteView>,
    pub status_bar: StatusBarView,
    pub theme: Theme,
}

impl View for NotionBackupCredentialsModel {
    type V = NotionBackupCredentialsModelView;

    closed spec fn view(&self) -> NotionBackupCredentialsModelView {
        NotionBackupCredentialsModelView {
            active_input: self.active_input,
            api_key: self.api_key@,
            commands_database_id: self.commands_database_id@,
            workspaces_database_id: self.workspaces_database_id@,
            error_message: opt_view(self.error_message),
            redirect: route_view(self.redirect),
            status_bar: self.status_bar@,
            theme: self.theme,
        }
    }
}

/// The focused input after `f`, the others unchanged.
pub open spec fn edit_active(
    s: NotionBackupCredentialsModelView,
    f: spec_fn(InputView) -> InputView,
) -> NotionBackupCredentialsModelView {
    match s.active_input {
        InputName::ApiKey => NotionBackupCredentialsModelView { api_key: f(s.api_key), ..s },
        InputName::CommandsDatabaseId => NotionBackupCredentialsModelView {
            commands_database_id: f(s.commands_database_id),
            ..s
        },
        InputName::WorkspacesDatabaseId => NotionBackupCredentialsModelView {
            workspaces_database_id: f(s.workspaces_database_id),
            ..s
        },
    }
}

/// Esc dismisses the error shown; with none, it goes back to the list of
/// backup credentials.
pub open spec fn cancelled(s: NotionBackupCredentialsModelView) -> NotionBackupCredentialsModelView {
    if s.error_message is Some {
        NotionBackupCredentialsModelView { error_message: None, ..s }
    } else {
        NotionBackupCredentialsModelView {
            redirect: Some(RouteView::BackupCredentials(BackupCredentialsRouteView::List)),
            ..s
        }
    }
}

/// Saving the credentials as typed.
pub open spec fn save_route(s: NotionBackupCredentialsModelView) -> RouteView {
    RouteView::BackupCredentials(
        BackupCredentialsRouteView::SaveNotionBackupCredentials(
            SaveNotionBackupCredentialsParamsView {
                api_key: s.api_key.text,
                commands_database_id: s.commands_database_id.text,
                workspaces_database_id: s.workspaces_database_id.text,
            },
        ),
    )
}

/// The form after a message.
pub open spec fn update(s: NotionBackupCredentialsModelView, m: Message) -> NotionBackupCredentialsModelView {
    match m {
        Message::Cancel => cancelled(s),
        Message::DeleteAllChars => edit_active(s, |v: InputView| v.delete_all_chars()),
        Message::DeleteChar => edit_active(s, |v: InputView| v.delete_char()),
        Message::EnterChar(c) => edit_active(s, |v: InputView| v.enter_char(c)),
        Message::MoveCusorLeft => edit_active(s, |v: InputView| v.move_cursor_left()),
        Message::MoveCusorRight => edit_active(s, |v: InputView| v.move_cursor_right()),
        Message::Submit => NotionBackupCredentialsModelView { redirect: Some(save_route(s)), ..s },
        Message::Tab => NotionBackupCredentialsModelView { active_input: next_input(s.active_input), ..s },
        Message::ExecuteCommand | Message::SelectNext | Message::SelectPrevious => s,
    }
}

impl Default for NotionBackupCredentialsModel {
    /// An empty form, the focus on the API key, no error.
    fn default() -> (r: NotionBackupCredentialsModel)
        ensures
            r@.theme.is_uniform(),
            r@.active_input == InputName::ApiKey,
            r@.api_key == InputView::with_text(Seq::empty()),
            r@.commands_database_id == InputView::with_text(Seq::empty()),
            r@.workspaces_database_id == InputView::with_text(Seq::empty()),
            r@.error_message is None,
            r@.redirect is None,
            r@.status_bar.operation == Some("Notion backup credentials"@),
            r@.status_bar.workspace is None,
            r@.status_bar.search is None,
    {
        let status_bar = StatusBar::builder().operation("Notion backup credentials").build();
        NotionBackupCredentialsModel {
            active_input: InputName::ApiKey,
            api_key: Input::empty(),
            commands_database_id: Input::empty(),
            error_message: None,
            redirect: None,
            status_bar,
            theme: Theme::plain(),
            workspaces_database_id: Input::empty(),
        }
    }
}

impl NotionBackupCredentialsModel {
    /// The form with `api_key` in the API key input.
    pub fn api_key(self, api_key: String) -> (r: NotionBackupCredentialsModel)
        ensures
            r@ == (NotionBackupCredentialsModelView { api_key: InputView::with_text(api_key@), ..self@ }),
    {
        NotionBackupCredentialsModel { api_key: Input::new(api_key), ..self }
    }

    /// The form with `commands_database_id` in its input.
    pub fn commands_database_id(self, commands_database_id: String) -> (r: NotionBackupCredentialsModel)
        ensures
            r@ == (NotionBackupCredentialsModelView {
                commands_database_id: InputView::with_text(commands_database_id@),
                ..self@
            }),
    {
        NotionBackupCredentialsModel { commands_database_id: Input::new(commands_database_id), ..self }
    }

    /// The form with `workspaces_database_id` in its input.
    pub fn workspaces_database_id(self, workspaces_database_id: String) -> (r: NotionBackupCredentialsModel)
        ensures
            r@ == (NotionBackupCredentialsModelView {
                workspaces_database_id: InputView::with_text(workspaces_database_id@),
                ..self@
            }),
    {
        NotionBackupCredentialsModel { workspaces_database_id: Input::new(workspaces_database_id), ..self }
    }

    /// The form showing `error_message`.
    pub fn error_message(self, error_message: String) -> (r: NotionBackupCredentialsModel)
        ensures
            r@ == (NotionBackupCredentialsModelView { error_message: Some(error_message@), ..self@ }),
    {
        NotionBackupCredentialsModel { error_message: Some(error_message), ..self }
    }

    /// The form drawn with `theme`.
    pub fn theme(self, theme: Theme) -> (r: NotionBackupCredentialsModel)
        ensures
            r@ == (NotionBackupCredentialsModelView { theme, ..self@ }),
    {
        NotionBackupCredentialsModel { theme, ..self }
    }

    /// The route the form asks for, handed over once.
    pub fn redirect(&mut self) -> (r: Option<Route>)
        ensures
            route_view(r) == old(self)@.redirect,
            final(self)@ == (NotionBackupCredentialsModelView { redirect: None, ..old(self)@ }),
    {
        self.redirect.take()
    }

    /// The input that has the focus.
    pub fn active_input(&self) -> (r: &Input)
        ensures
            r@ == (match self@.active_input {
                InputName::ApiKey => self@.api_key,
                InputName::CommandsDatabaseId => self@.commands_database_id,
                InputName::WorkspacesDatabaseId => self@.workspaces_database_id,
            }),
    {
        match self.active_input {
            InputName::ApiKey => &self.api_key,
            InputName::CommandsDatabaseId => &self.commands_database_id,
            InputName::WorkspacesDatabaseId => &self.workspaces_database_id,
        }
    }

    /// Which input has the focus.
    pub fn active_input_name(&self) -> (r: InputName)
        ensures
            r == self@.active_input,
    {
        self.active_input
    }

    /// The error shown, if any.
    pub fn error(&self) -> (r: Option<&String>)
        ensures
            opt_view(match r { Some(e) => Some(*e), None => None }) == self@.error_message,
    {
        match &self.error_message {
            Some(e) => Some(e),
            None => None,
        }
    }

    /// The status line of the form.
    pub fn status_bar(&self) -> (r: &StatusBar)
        ensures
            r@ == self@.status_bar,
    {
        &self.status_bar
    }

    /// Handles a message.
    pub fn update(&mut self, message: Message)
        ensures
            final(self)@ == update(old(self)@, message),
    {
        match message {
            Message::Cancel => self.cancel(),
            Message::DeleteAllChars => match self.active_input {
                InputName::ApiKey => self.api_key.delete_all_chars(),
                InputName::CommandsDatabaseId => self.commands_database_id.delete_all_chars(),
                InputName::WorkspacesDatabaseId => self.workspaces_database_id.delete_all_chars(),
            },
            Message::DeleteChar => match self.active_input {
                InputName::ApiKey => self.api_key.delete_char(),
                InputName::CommandsDatabaseId => self.commands_database_id.delete_char(),
                InputName::WorkspacesDatabaseId => self.workspaces_database_id.delete_char(),
            },
            Message::EnterChar(c) => match self.active_input {
                InputName::ApiKey => self.api_key.enter_char(c),
                InputName::CommandsDatabaseId => self.commands_database_id.enter_char(c),
                InputName::WorkspacesDatabaseId => self.workspaces_database_id.enter_char(c),
            },
            Message::MoveCusorLeft => match self.active_input {
                InputName::ApiKey => self.api_key.move_cursor_left(),
                InputName::CommandsDatabaseId => self.commands_database_id.move_cursor_left(),
                InputName::WorkspacesDatabaseId => self.workspaces_database_id.move_cursor_left(),
            },
            Message::MoveCusorRight => match self.active_input {
                InputName::ApiKey => self.api_key.move_cursor_right(),
                InputName::CommandsDatabaseId => self.commands_database_id.move_cursor_right(),
                InputName::WorkspacesDatabaseId => self.workspaces_database_id.move_cursor_right(),
            },
            Message::Submit => self.submit(),
            Message::Tab => {
                self.active_input = self.active_input.next();
            },
            Message::ExecuteCommand | Message::SelectNext | Message::SelectPrevious => {},
        }
    }

    fn cancel(&mut self)
        ensures
            final(self)@ == cancelled(old(self)@),
    {
        if self.error_message.is_some() {
            self.error_message = None;
            return;
        }
        self.redirect = Some(Route::BackupCredentials(BackupCredentialsRoute::List));
    }

    fn submit(&mut self)
        ensures
            final(self)@ == (NotionBackupCredentialsModelView { redirect: Some(save_route(old(self)@)), ..old(self)@ }),
    {
        self.redirect = Some(
            Route::from(
                SaveNotionBackupCredentialsParams {
                    api_key: self.api_key.value(),
                    commands_database_id: self.commands_database_id.value(),
                    workspaces_database_id: self.workspaces_database_id.value(),
                },
            ),
        );
    }
}

/// While an error is shown, Esc only dismisses it and the form stays.
pub proof fn lemma_cancel_dismisses_error_first(s: NotionBackupCredentialsModelView)
    requires
        s.error_message is Some,
    ensures
        update(s, Message::Cancel) == (NotionBackupCredentialsModelView { error_message: None, ..s }),
        update(update(s, Message::Cancel), Message::Cancel).redirect == Some(
            RouteView::BackupCredentials(BackupCredentialsRouteView::List),
        ),
{
}

/// Three Tabs bring the focus back to where it was.
pub proof fn lemma_tab_cycles_through_inputs(s: NotionBackupCredentialsModelView)
    ensures
        update(update(update(s, Message::Tab), Message::Tab), Message::Tab) == s,
{
}

} // verus!
