//! The screen that edits the Notion backup credentials.
use vstd::prelude::*;
use crate::forms::{
    credentials_form_of, edits_after, empty_text, form_inputs_after, fresh_form, inputs_holding,
    is_form_edit, lemma_filling_three_fields, lemma_typed_messages_are_edits, three_typed,
    FormInputsView,
    NotionBackupCredentialsForm, NotionBackupCredentialsFormParameters,
    NotionBackupCredentialsFormView,
};
use crate::message::Message;
use crate::params::{SaveNotionBackupCredentialsParams, SaveNotionBackupCredentialsParamsView};
use crate::presenters::NotionBackupCredentialsPresenter;
use crate::routes::{BackupCredentialsRoute, BackupCredentialsRouteView, route_view, Route, RouteView};
use crate::status_bar::{opt_view, StatusBar, StatusBarView};
use crate::theme::Theme;

verus! {

/// The screen that edits the Notion backup credentials.
pub struct ManageNotionBackupCredentialsModel {
    error_message: Option<String>,
    form: NotionBackupCredentialsForm,
    redirect: Option<Route>,
    status_bar: StatusBar,
    theme: Theme,
}

/// The credentials saved so far, and an error to show over the form.
pub struct ManageNotionBackupCredentialsModelParameters {
    pub credentials: Option<NotionBackupCredentialsPresenter>,
    pub error_message: Option<String>,
    pub theme: Theme,
}

/// The screen, as a value.
pub struct ManageNotionBackupCredentialsModelView {
    pub error_message: Option<Seq<char>>,
    pub form: NotionBackupCredentialsFormView,
    pub redirect: Option<RouteView>,
    pub status_bar: StatusBarView,
    pub theme: Theme,
}

impl View for ManageNotionBackupCredentialsModel {
    type V = ManageNotionBackupCredentialsModelView;

    closed spec fn view(&self) -> ManageNotionBackupCredentialsModelView {
        ManageNotionBackupCredentialsModelView {
            error_message: opt_view(self.error_message),
            form: self.form@,
            redirect: route_view(self.redirect),
            status_bar: self.status_bar@,
            theme: self.theme,
        }
    }
}

/// Saving the credentials as typed.
pub open spec fn submit_route(form: FormInputsView) -> RouteView {
    RouteView::BackupCredentials(
        BackupCredentialsRouteView::SaveNotionBackupCredentials(
            SaveNotionBackupCredentialsParamsView {
                api_key: form.text(0),
                commands_database_id: form.text(1),
                workspaces_database_id: form.text(2),
            },
        ),
    )
}

/// The screen after a message. Esc first dismisses the error shown, and
/// only then goes back to the list of backup credentials.
pub open spec fn update(
    s: ManageNotionBackupCredentialsModelView,
    m: Message,
) -> ManageNotionBackupCredentialsModelView {
    if is_form_edit(m) {
        ManageNotionBackupCredentialsModelView {
            form: NotionBackupCredentialsFormView { inputs: form_inputs_after(s.form.inputs, m), ..s.form },
            ..s
        }
    } else {
        match m {
            Message::Cancel => if s.error_message is Some {
                ManageNotionBackupCredentialsModelView { error_message: None, ..s }
            } else {
                ManageNotionBackupCredentialsModelView {
                    redirect: Some(RouteView::BackupCredentials(BackupCredentialsRouteView::List)),
                    ..s
                }
            },
            Message::Submit => ManageNotionBackupCredentialsModelView {
                redirect: Some(submit_route(s.form.inputs)),
                ..s
            },
            _ => s,
        }
    }
}

/// With an error shown and nowhere to go yet, a first Esc only dismisses the
/// error, and a second one goes back to the list of backup credentials.
pub proof fn lemma_cancel_dismisses_error_first(s: ManageNotionBackupCredentialsModelView)
    requires
        s.error_message is Some,
        s.redirect is None,
    ensures
        update(s, Message::Cancel) == (ManageNotionBackupCredentialsModelView { error_message: None, ..s }),
        update(s, Message::Cancel).redirect is None,
        update(update(s, Message::Cancel), Message::Cancel).redirect
            == Some(RouteView::BackupCredentials(BackupCredentialsRouteView::List)),
{
}

/// The screen after a run of messages, one after the other.
pub open spec fn after_messages(s: ManageNotionBackupCredentialsModelView, ms: Seq<Message>) -> ManageNotionBackupCredentialsModelView
    decreases ms.len(),
{
    if ms.len() == 0 {
        s
    } else {
        update(after_messages(s, ms.drop_last()), ms.last())
    }
}

/// Messages that only edit the form change only its inputs, as they change
/// the inputs of any form.
pub proof fn lemma_edits_reach_only_the_form(s: ManageNotionBackupCredentialsModelView, ms: Seq<Message>)
    requires
        forall|i: int| 0 <= i < ms.len() ==> is_form_edit(#[trigger] ms[i]),
    ensures
        after_messages(s, ms) == (ManageNotionBackupCredentialsModelView { form: NotionBackupCredentialsFormView { inputs: edits_after(s.form.inputs, ms), ..s.form }, ..s }),
    decreases ms.len(),
{
    if ms.len() > 0 {
        assert forall|i: int| 0 <= i < ms.drop_last().len() implies is_form_edit(#[trigger] ms.drop_last()[i]) by {
            assert(ms.drop_last()[i] == ms[i]);
        }
        lemma_edits_reach_only_the_form(s, ms.drop_last());
        assert(is_form_edit(ms[ms.len() - 1]));
    }
}

/// Submitting after a run of edits submits the form those edits left.
proof fn lemma_submit_after_edits(s: ManageNotionBackupCredentialsModelView, ms: Seq<Message>)
    requires
        forall|i: int| 0 <= i < ms.len() ==> is_form_edit(#[trigger] ms[i]),
    ensures
        after_messages(s, ms.push(Message::Submit))
            == update(ManageNotionBackupCredentialsModelView { form: NotionBackupCredentialsFormView { inputs: edits_after(s.form.inputs, ms), ..s.form }, ..s }, Message::Submit),
{
    assert(ms.push(Message::Submit).drop_last() =~= ms);
    lemma_edits_reach_only_the_form(s, ms);
}

/// The credentials route that saves the three given texts.
pub open spec fn save_route(
    api_key: Seq<char>,
    commands_database_id: Seq<char>,
    workspaces_database_id: Seq<char>,
) -> RouteView {
    RouteView::BackupCredentials(
        BackupCredentialsRouteView::SaveNotionBackupCredentials(
            SaveNotionBackupCredentialsParamsView { api_key, commands_database_id, workspaces_database_id },
        ),
    )
}

/// Credentials typed into the empty form are saved each in its own field:
/// the API key typed first, the commands database id after the first Tab,
/// and the workspaces database id after the second.
pub proof fn lemma_typed_credentials_are_saved_as_typed(
    s: ManageNotionBackupCredentialsModelView,
    api_key: Seq<char>,
    commands_database_id: Seq<char>,
    workspaces_database_id: Seq<char>,
)
    requires
        s.form.inputs == credentials_form_of(None),
        api_key.len() < usize::MAX,
        commands_database_id.len() < usize::MAX,
        workspaces_database_id.len() < usize::MAX,
    ensures
        after_messages(
            s,
            three_typed(api_key, commands_database_id, workspaces_database_id).push(Message::Submit),
        ).redirect == Some(save_route(api_key, commands_database_id, workspaces_database_id)),
{
    lemma_typed_messages_are_edits(api_key, commands_database_id, workspaces_database_id);
    lemma_submit_after_edits(s, three_typed(api_key, commands_database_id, workspaces_database_id));
    assert(s.form.inputs.inputs =~= fresh_form(3).inputs);
    lemma_filling_three_fields(api_key, commands_database_id, workspaces_database_id);
}

/// Saved credentials shown in the form are saved back unchanged, each in
/// its own field.
pub proof fn lemma_loaded_credentials_are_saved_unchanged(
    s: ManageNotionBackupCredentialsModelView,
    c: NotionBackupCredentialsPresenter,
)
    requires
        s.form.inputs == credentials_form_of(Some(c)),
    ensures
        update(s, Message::Submit).redirect
            == Some(save_route(c.api_key@, c.commands_database_id@, c.workspaces_database_id@)),
{
}


impl ManageNotionBackupCredentialsModel {
    /// The screen, its form holding the saved credentials or empty.
    pub fn new(params: ManageNotionBackupCredentialsModelParameters) -> (r: ManageNotionBackupCredentialsModel)
        ensures
            r@.form.inputs == credentials_form_of(params.credentials),
            r@.form.theme == params.theme,
            r@.error_message == opt_view(params.error_message),
            r@.redirect is None,
            r@.theme == params.theme,
            r@.status_bar == (StatusBarView {
                operation: Some("Manage Notion backup credentials"@),
                workspace: None,
                command: None,
                page: None,
                selector: None,
                pwsh: None,
                search: None,
            }),
    {
        let ManageNotionBackupCredentialsModelParameters { credentials, theme, error_message } = params;
        let status_bar = StatusBar::builder().operation("Manage Notion backup credentials").build();
        ManageNotionBackupCredentialsModel {
            form: NotionBackupCredentialsForm::new(
                NotionBackupCredentialsFormParameters {
                    theme,
                    notion_backup_credentials_presenter: credentials,
                },
            ),
            redirect: None,
            status_bar,
            theme,
            error_message,
        }
    }

    /// The route the screen asks for, handed over once.
    pub fn redirect(&mut self) -> (r: Option<Route>)
        ensures
            route_view(r) == old(self)@.redirect,
            final(self)@ == (ManageNotionBackupCredentialsModelView { redirect: None, ..old(self)@ }),
    {
        self.redirect.take()
    }

    /// The error shown over the form, if any.
    pub fn error_message(&self) -> (r: Option<&String>)
        ensures
            match r {
                Some(m) => self@.error_message == Some(m@),
                None => self@.error_message is None,
            },
    {
        self.error_message.as_ref()
    }

    /// The status line of the screen.
    pub fn status_bar(&self) -> (r: &StatusBar)
        ensures
            r@ == self@.status_bar,
    {
        &self.status_bar
    }

    /// The form of the screen.
    pub fn form(&self) -> (r: &NotionBackupCredentialsForm)
        ensures
            r@ == self@.form,
    {
        &self.form
    }

    /// The theme of the screen.
    pub fn theme(&self) -> (r: Theme)
        ensures
            r == self@.theme,
    {
        self.theme
    }

    /// Handles a message: Esc dismisses the error or goes back, Enter saves,
    /// Tab and the editing keys act on the form.
    pub fn update(&mut self, message: Message)
        ensures
            final(self)@ == update(old(self)@, message),
    {
        match message {
            Message::Cancel => self.cancel(),
            Message::DeleteAllChars => self.delete_all_chars(),
            Message::DeleteChar => self.delete_char(),
            Message::EnterChar(c) => self.enter_char(c),
            Message::MoveCusorLeft => self.move_cursor_left(),
            Message::MoveCusorRight => self.move_cursor_right(),
            Message::Submit => self.submit(),
            Message::Tab => self.toggle_focus(),
            Message::ExecuteCommand | Message::SelectNext | Message::SelectPrevious => {},
        }
    }

    /// Esc: dismisses the error shown, or, with none shown, goes back to
    /// the list of backup credentials.
    pub fn cancel(&mut self)
        ensures
            final(self)@ == update(old(self)@, Message::Cancel),
    {
        if self.error_message.is_some() {
            self.error_message = None;
            return;
        }
        self.redirect = Some(Route::BackupCredentials(BackupCredentialsRoute::List));
    }

    fn toggle_focus(&mut self)
        ensures
            final(self)@ == update(old(self)@, Message::Tab),
    {
        self.form.select_next_input();
    }

    fn enter_char(&mut self, c: char)
        ensures
            final(self)@ == update(old(self)@, Message::EnterChar(c)),
    {
        self.form.enter_char(c);
    }

    fn delete_char(&mut self)
        ensures
            final(self)@ == update(old(self)@, Message::DeleteChar),
    {
        self.form.delete_char();
    }

    fn delete_all_chars(&mut self)
        ensures
            final(self)@ == update(old(self)@, Message::DeleteAllChars),
    {
        self.form.delete_all_chars();
    }

    fn move_cursor_left(&mut self)
        ensures
            final(self)@ == update(old(self)@, Message::MoveCusorLeft),
    {
        self.form.move_cursor_left();
    }

    fn move_cursor_right(&mut self)
        ensures
            final(self)@ == update(old(self)@, Message::MoveCusorRight),
    {
        self.form.move_cursor_right();
    }

    /// Asks to save the credentials the form holds.
    pub fn submit(&mut self)
        ensures
            final(self)@ == update(old(self)@, Message::Submit),
    {
        let NotionBackupCredentialsPresenter { api_key, commands_database_id, workspaces_database_id } =
            self.form.credentials();
        self.redirect = Some(
            Route::from(
                SaveNotionBackupCredentialsParams { api_key, commands_database_id, workspaces_database_id },
            ),
        );
    }
}

} // verus!
