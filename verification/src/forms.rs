//! Forms: a row of text inputs, one of which has the focus.
use vstd::prelude::*;
use crate::input::{Input, InputView};
use crate::coordinator::{CommandId, WorkspaceId};
use crate::presenters::{
    CommandPresenter, CommandPresenterView, NotionBackupCredentialsPresenter, WorkspacePresenter,
    WorkspacePresenterView,
};
use crate::theme::Theme;
use crate::message::Message;

verus! {

/// The inputs of a form and the index of the focused one, as values.
pub struct FormInputsView {
    pub inputs: Seq<InputView>,
    pub active: nat,
}

impl FormInputsView {
    /// The focused input after `f`, the others unchanged.
    pub open spec fn edit_active(self, f: spec_fn(InputView) -> InputView) -> FormInputsView {
        if self.active < self.inputs.len() {
            FormInputsView {
                inputs: self.inputs.update(self.active as int, f(self.inputs[self.active as int])),
                active: self.active,
            }
        } else {
            self
        }
    }

    /// The focus moves to the next input, wrapping around.
    pub open spec fn select_next_input(self) -> FormInputsView {
        if self.inputs.len() == 0 {
            self
        } else {
            FormInputsView { inputs: self.inputs, active: (self.active + 1) % self.inputs.len() }
        }
    }

    /// The text of input `i`; empty when the form has no such input.
    pub open spec fn text(self, i: int) -> Seq<char> {
        if 0 <= i < self.inputs.len() {
            self.inputs[i].text
        } else {
            Seq::empty()
        }
    }
}

/// The inputs of a form and the focused one.
pub struct FormInputs {
    inputs: Vec<Input>,
    active: usize,
}

impl View for FormInputs {
    type V = FormInputsView;

    closed spec fn view(&self) -> FormInputsView {
        FormInputsView { inputs: self.inputs@.map_values(|i: Input| i@), active: self.active as nat }
    }
}

/// The inputs a form starts with: each holding its value, the cursor at its end.
pub open spec fn inputs_holding(values: Seq<Seq<char>>) -> Seq<InputView> {
    values.map_values(|v: Seq<char>| InputView::with_text(v))
}

impl FormInputs {
    /// A form whose inputs hold `values`, the focus on the first.
    pub fn new(values: Vec<String>) -> (r: FormInputs)
        ensures
            r@.inputs == inputs_holding(values@.map_values(|s: String| s@)),
            r@.active == 0,
    {
        let mut inputs: Vec<Input> = Vec::new();
        let mut values = values;
        let ghost all = values@;
        let mut i: usize = 0;
        let n = values.len();
        while i < n
            invariant
                n == all.len(),
                i <= n,
                values@.len() == n - i,
                forall|j: int| 0 <= j < values@.len() ==> values@[j] == all[j + i],
                inputs@.map_values(|x: Input| x@) =~= inputs_holding(
                    all.map_values(|s: String| s@),
                ).take(i as int),
            decreases n - i,
        {
            let v = values.remove(0);
            let input = Input::new(v);
            inputs.push(input);
            proof {
                assert(inputs_holding(all.map_values(|s: String| s@)).take(i as int + 1) =~= inputs_holding(
                    all.map_values(|s: String| s@),
                ).take(i as int).push(InputView::with_text(all[i as int]@)));
            }
            i = i + 1;
        }
        proof {
            assert(inputs_holding(all.map_values(|s: String| s@)).take(n as int) =~= inputs_holding(
                all.map_values(|s: String| s@),
            ));
        }
        FormInputs { inputs, active: 0 }
    }

    /// The index of the focused input.
    pub fn active(&self) -> (r: usize)
        ensures
            r == self@.active,
    {
        self.active
    }

    /// The number of inputs.
    pub fn len(&self) -> (r: usize)
        ensures
            r == self@.inputs.len(),
    {
        self.inputs.len()
    }

    /// The text of input `i`; empty when the form has no such input.
    pub fn value(&self, i: usize) -> (s: String)
        ensures
            s@ == self@.text(i as int),
    {
        if i < self.inputs.len() {
            self.inputs[i].value()
        } else {
            String::new()
        }
    }

    /// The cursor position in the focused input.
    pub fn character_index(&self) -> (r: usize)
        requires
            self@.active < self@.inputs.len(),
        ensures
            r == self@.inputs[self@.active as int].cursor,
    {
        self.inputs[self.active].character_index()
    }

    /// Moves the focus to the next input, wrapping around.
    pub fn select_next_input(&mut self)
        ensures
            final(self)@ == old(self)@.select_next_input(),
    {
        let n = self.inputs.len();
        if n > 0 {
            let a = self.active;
            let r = a % n;
            let next = if r + 1 < n { r + 1 } else { 0 };
            self.active = next;
            proof {
                let ai = a as int;
                let ni = n as int;
                let ri = r as int;
                let xi = next as int;
                assert(xi == (ai + 1) % ni) by (nonlinear_arith)
                    requires
                        ni > 0,
                        ai >= 0,
                        ri == ai % ni,
                        xi == (if ri + 1 < ni { ri + 1 } else { 0 }),
                ;
            }
        }
    }

    /// Types `c` into the focused input.
    pub fn enter_char(&mut self, c: char)
        ensures
            final(self)@ == old(self)@.edit_active(|v: InputView| v.enter_char(c)),
    {
        if self.active < self.inputs.len() {
            let a = self.active;
            self.inputs[a].enter_char(c);
            proof {
                assert(self@.inputs =~= old(self)@.inputs.update(a as int, old(self)@.inputs[a as int].enter_char(c)));
            }
        }
    }

    /// Deletes the character before the cursor in the focused input.
    pub fn delete_char(&mut self)
        ensures
            final(self)@ == old(self)@.edit_active(|v: InputView| v.delete_char()),
    {
        if self.active < self.inputs.len() {
            let a = self.active;
            self.inputs[a].delete_char();
            proof {
                assert(self@.inputs =~= old(self)@.inputs.update(a as int, old(self)@.inputs[a as int].delete_char()));
            }
        }
    }

    /// Empties the focused input.
    pub fn delete_all_chars(&mut self)
        ensures
            final(self)@ == old(self)@.edit_active(|v: InputView| v.delete_all_chars()),
    {
        if self.active < self.inputs.len() {
            let a = self.active;
            self.inputs[a].delete_all_chars();
            proof {
                assert(self@.inputs =~= old(self)@.inputs.update(a as int, old(self)@.inputs[a as int].delete_all_chars()));
            }
        }
    }

    /// Moves the cursor of the focused input one character left.
    pub fn move_cursor_left(&mut self)
        ensures
            final(self)@ == old(self)@.edit_active(|v: InputView| v.move_cursor_left()),
    {
        if self.active < self.inputs.len() {
            let a = self.active;
            self.inputs[a].move_cursor_left();
            proof {
                assert(self@.inputs =~= old(self)@.inputs.update(a as int, old(self)@.inputs[a as int].move_cursor_left()));
            }
        }
    }

    /// Moves the cursor of the focused input one character right.
    pub fn move_cursor_right(&mut self)
        ensures
            final(self)@ == old(self)@.edit_active(|v: InputView| v.move_cursor_right()),
    {
        if self.active < self.inputs.len() {
            let a = self.active;
            self.inputs[a].move_cursor_right();
            proof {
                assert(self@.inputs =~= old(self)@.inputs.update(a as int, old(self)@.inputs[a as int].move_cursor_right()));
            }
        }
    }
}


/// What a message does to the inputs of a form: Tab moves the focus, the
/// editing messages edit the focused input, the others leave it alone.
pub open spec fn form_inputs_after(f: FormInputsView, m: Message) -> FormInputsView {
    match m {
        Message::Tab => f.select_next_input(),
        Message::DeleteAllChars => f.edit_active(|v: InputView| v.delete_all_chars()),
        Message::DeleteChar => f.edit_active(|v: InputView| v.delete_char()),
        Message::EnterChar(c) => f.edit_active(|v: InputView| v.enter_char(c)),
        Message::MoveCusorLeft => f.edit_active(|v: InputView| v.move_cursor_left()),
        Message::MoveCusorRight => f.edit_active(|v: InputView| v.move_cursor_right()),
        _ => f,
    }
}

/// Whether a message only edits the inputs of a form.
pub open spec fn is_form_edit(m: Message) -> bool {
    m is Tab || m is DeleteAllChars || m is DeleteChar || m is EnterChar || m is MoveCusorLeft
        || m is MoveCusorRight
}

/// The message of typing the character at `i` of `t`.
pub open spec fn key_of(t: Seq<char>, i: int) -> Message {
    Message::EnterChar(t[i])
}

/// The inputs of a form opened on a command: its name, then its program,
/// the focus on the name.
pub open spec fn command_form_of(c: CommandPresenterView) -> FormInputsView {
    FormInputsView { inputs: inputs_holding(seq![c.name, c.program]), active: 0 }
}

/// The inputs of a form opened on a workspace: its name, then its location,
/// the focus on the name.
pub open spec fn workspace_form_of(w: WorkspacePresenterView) -> FormInputsView {
    FormInputsView { inputs: inputs_holding(seq![w.name, w.location]), active: 0 }
}

/// The inputs of the credentials form: the API key, the commands database
/// id and the workspaces database id, or three empty inputs; the focus on
/// the API key.
pub open spec fn credentials_form_of(c: Option<NotionBackupCredentialsPresenter>) -> FormInputsView {
    FormInputsView {
        inputs: inputs_holding(
            match c {
                Some(c) => seq![c.api_key@, c.commands_database_id@, c.workspaces_database_id@],
                None => seq![empty_text(), empty_text(), empty_text()],
            },
        ),
        active: 0,
    }
}

/// The messages of typing `t`, one character after the other.
pub open spec fn typing(t: Seq<char>) -> Seq<Message> {
    Seq::new(t.len(), |i: int| key_of(t, i))
}

/// The inputs after a run of messages.
pub open spec fn edits_after(f: FormInputsView, ms: Seq<Message>) -> FormInputsView
    decreases ms.len(),
{
    if ms.len() == 0 {
        f
    } else {
        form_inputs_after(edits_after(f, ms.drop_last()), ms.last())
    }
}

/// A form with `n` empty inputs, the focus on the first.
pub open spec fn fresh_form(n: nat) -> FormInputsView {
    FormInputsView { inputs: Seq::new(n, |i: int| InputView::with_text(Seq::empty())), active: 0 }
}

/// Typing `first`, Tab, then `second`.
pub open spec fn two_typed(first: Seq<char>, second: Seq<char>) -> Seq<Message> {
    typing(first) + seq![Message::Tab] + typing(second)
}

/// Typing `first`, Tab, `second`, Tab, then `third`.
pub open spec fn three_typed(first: Seq<char>, second: Seq<char>, third: Seq<char>) -> Seq<Message> {
    typing(first) + seq![Message::Tab] + typing(second) + seq![Message::Tab] + typing(third)
}

/// Typing text, and pressing Tab, only edit the inputs of a form.
pub proof fn lemma_typed_messages_are_edits(first: Seq<char>, second: Seq<char>, third: Seq<char>)
    ensures
        forall|i: int| 0 <= i < typing(first).len() ==> is_form_edit(#[trigger] typing(first)[i]),
        forall|i: int| 0 <= i < two_typed(first, second).len()
            ==> is_form_edit(#[trigger] two_typed(first, second)[i]),
        forall|i: int| 0 <= i < three_typed(first, second, third).len()
            ==> is_form_edit(#[trigger] three_typed(first, second, third)[i]),
{
    assert forall|i: int| 0 <= i < two_typed(first, second).len()
        implies is_form_edit(#[trigger] two_typed(first, second)[i]) by {
        if i < first.len() {
            assert(two_typed(first, second)[i] == typing(first)[i]);
        } else if i > first.len() {
            assert(two_typed(first, second)[i] == typing(second)[i - first.len() - 1]);
        }
    }
    assert forall|i: int| 0 <= i < three_typed(first, second, third).len()
        implies is_form_edit(#[trigger] three_typed(first, second, third)[i]) by {
        let n1 = first.len() as int;
        let n2 = n1 + 1 + second.len();
        if i < n1 {
            assert(three_typed(first, second, third)[i] == typing(first)[i]);
        } else if n1 < i < n2 {
            assert(three_typed(first, second, third)[i] == typing(second)[i - n1 - 1]);
        } else if i > n2 {
            assert(three_typed(first, second, third)[i] == typing(third)[i - n2 - 1]);
        }
    }
}

/// Typing text into a form just loaded with `values` adds it at the end of
/// the first value and leaves the others as they were.
pub proof fn lemma_typing_into_loaded_form(values: Seq<Seq<char>>, more: Seq<char>)
    requires
        values.len() > 0,
        values[0].len() + more.len() < usize::MAX,
    ensures
        ({
            let f = edits_after(FormInputsView { inputs: inputs_holding(values), active: 0 }, typing(more));
            &&& f.inputs.len() == values.len()
            &&& f.text(0) == values[0] + more
            &&& forall|i: int| 0 < i < values.len() ==> #[trigger] f.text(i) == values[i]
        }),
{
    let f0 = FormInputsView { inputs: inputs_holding(values), active: 0 };
    lemma_typing_appends(f0, more);
}

/// Running two runs of messages one after the other.
pub proof fn lemma_edits_after_concat(f: FormInputsView, a: Seq<Message>, b: Seq<Message>)
    ensures
        edits_after(f, a + b) == edits_after(edits_after(f, a), b),
    decreases b.len(),
{
    if b.len() == 0 {
        assert(a + b =~= a);
    } else {
        lemma_edits_after_concat(f, a, b.drop_last());
        assert((a + b).drop_last() =~= a + b.drop_last());
        assert((a + b).last() == b.last());
    }
}

/// Typing text into an input whose cursor stands at the end of its text
/// appends the text to it, and leaves the focus and the other inputs alone.
pub proof fn lemma_typing_appends(f: FormInputsView, t: Seq<char>)
    requires
        f.active < f.inputs.len(),
        f.inputs[f.active as int] == InputView::with_text(f.inputs[f.active as int].text),
        f.inputs[f.active as int].text.len() + t.len() < usize::MAX,
    ensures
        edits_after(f, typing(t)) == (FormInputsView {
            inputs: f.inputs.update(
                f.active as int,
                InputView::with_text(f.inputs[f.active as int].text + t),
            ),
            active: f.active,
        }),
    decreases t.len(),
{
    let a = f.active as int;
    let x = f.inputs[a].text;
    if t.len() == 0 {
        assert(x + t =~= x);
        assert(f.inputs.update(a, InputView::with_text(x)) =~= f.inputs);
        assert(typing(t).len() == 0);
    } else {
        assert(typing(t).drop_last() =~= typing(t.drop_last()));
        lemma_typing_appends(f, t.drop_last());
        let y = x + t.drop_last();
        assert(y.insert(y.len() as int, t.last()) =~= x + t);
        let p = edits_after(f, typing(t.drop_last()));
        assert(p.inputs.update(a, InputView::with_text(x + t))
            =~= f.inputs.update(a, InputView::with_text(x + t)));
    }
}

/// Typing `first`, Tab, then `second` into an empty two-field form fills the
/// first field with `first` and the second with `second`.
pub proof fn lemma_filling_two_fields(first: Seq<char>, second: Seq<char>)
    requires
        first.len() < usize::MAX,
        second.len() < usize::MAX,
    ensures
        ({
            let f = edits_after(fresh_form(2), two_typed(first, second));
            f.text(0) == first && f.text(1) == second && f.inputs.len() == 2
        }),
{
    let f0 = fresh_form(2);
    lemma_edits_after_concat(f0, typing(first) + seq![Message::Tab], typing(second));
    lemma_edits_after_concat(f0, typing(first), seq![Message::Tab]);
    lemma_typing_appends(f0, first);
    let f1 = edits_after(f0, typing(first));
    assert(Seq::<char>::empty() + first =~= first);
    assert(seq![Message::Tab].drop_last() =~= Seq::<Message>::empty());
    let f2 = edits_after(f1, seq![Message::Tab]);
    assert(edits_after(f1, seq![Message::Tab].drop_last()) == f1);
    assert(f2 == f1.select_next_input());
    assert((0nat + 1) % 2nat == 1) by (nonlinear_arith);
    assert(f2.inputs[1] == InputView::with_text(Seq::empty()));
    lemma_typing_appends(f2, second);
    assert(Seq::<char>::empty() + second =~= second);
}

/// Typing three texts into an empty three-field form, with Tab between
/// them, fills the fields in that order.
pub proof fn lemma_filling_three_fields(first: Seq<char>, second: Seq<char>, third: Seq<char>)
    requires
        first.len() < usize::MAX,
        second.len() < usize::MAX,
        third.len() < usize::MAX,
    ensures
        ({
            let f = edits_after(fresh_form(3), three_typed(first, second, third));
            f.text(0) == first && f.text(1) == second && f.text(2) == third && f.inputs.len() == 3
        }),
{
    let f0 = fresh_form(3);
    let m1 = typing(first) + seq![Message::Tab];
    let m2 = m1 + typing(second) + seq![Message::Tab];
    lemma_edits_after_concat(f0, m2, typing(third));
    lemma_edits_after_concat(f0, m1 + typing(second), seq![Message::Tab]);
    lemma_edits_after_concat(f0, m1, typing(second));
    lemma_edits_after_concat(f0, typing(first), seq![Message::Tab]);
    assert(seq![Message::Tab].drop_last() =~= Seq::<Message>::empty());
    lemma_typing_appends(f0, first);
    assert(Seq::<char>::empty() + first =~= first);
    let f1 = edits_after(f0, typing(first));
    let f2 = edits_after(f1, seq![Message::Tab]);
    assert(edits_after(f1, seq![Message::Tab].drop_last()) == f1);
    assert(f2 == f1.select_next_input());
    assert((0nat + 1) % 3nat == 1) by (nonlinear_arith);
    assert(f2.inputs[1] == InputView::with_text(Seq::empty()));
    lemma_typing_appends(f2, second);
    assert(Seq::<char>::empty() + second =~= second);
    let f3 = edits_after(f2, typing(second));
    let f4 = edits_after(f3, seq![Message::Tab]);
    assert(edits_after(f3, seq![Message::Tab].drop_last()) == f3);
    assert(f4 == f3.select_next_input());
    assert((1nat + 1) % 3nat == 2) by (nonlinear_arith);
    assert(f4.inputs[2] == InputView::with_text(Seq::empty()));
    lemma_typing_appends(f4, third);
    assert(Seq::<char>::empty() + third =~= third);
}

/// Two texts as the values of a form.
pub fn two_values(first: String, second: String) -> (r: Vec<String>)
    ensures
        r@.map_values(|s: String| s@) == seq![first@, second@],
{
    let mut v: Vec<String> = Vec::new();
    v.push(first);
    v.push(second);
    proof {
        assert(v@.map_values(|s: String| s@) =~= seq![first@, second@]);
    }
    v
}

/// Three texts as the values of a form.
pub fn three_values(first: String, second: String, third: String) -> (r: Vec<String>)
    ensures
        r@.map_values(|s: String| s@) == seq![first@, second@, third@],
{
    let mut v: Vec<String> = Vec::new();
    v.push(first);
    v.push(second);
    v.push(third);
    proof {
        assert(v@.map_values(|s: String| s@) =~= seq![first@, second@, third@]);
    }
    v
}

/// Empty text.
pub open spec fn empty_text() -> Seq<char> {
    Seq::empty()
}

/// The form for a command: its name and its program.
pub struct CommandForm {
    inputs: FormInputs,
    id: CommandId,
    workspace_id: WorkspaceId,
    pub theme: Theme,
}

/// The form for a new command of a workspace.
pub struct NewCommandFormParameters {
    pub workspace_id: WorkspaceId,
    pub theme: Theme,
}

/// The form for editing a command.
pub struct EditCommandFormParameters {
    pub command: CommandPresenter,
    pub theme: Theme,
}

/// A command form, as a value: the inputs (name, then program) and the
/// command and workspace it belongs to (the command id is 0 for a command
/// not stored yet).
pub struct CommandFormView {
    pub inputs: FormInputsView,
    pub id: CommandId,
    pub workspace_id: WorkspaceId,
    pub theme: Theme,
}

impl View for CommandForm {
    type V = CommandFormView;

    closed spec fn view(&self) -> CommandFormView {
        CommandFormView {
            inputs: self.inputs@,
            id: self.id,
            workspace_id: self.workspace_id,
            theme: self.theme,
        }
    }
}

impl CommandForm {
    /// An empty form for a new command of the workspace.
    pub fn new(parameters: NewCommandFormParameters) -> (r: CommandForm)
        ensures
            r@.inputs.inputs == inputs_holding(seq![empty_text(), empty_text()]),
            r@.inputs.active == 0,
            r@.id == 0,
            r@.workspace_id == parameters.workspace_id,
            r@.theme == parameters.theme,
    {
        let NewCommandFormParameters { workspace_id, theme } = parameters;
        CommandForm {
            inputs: FormInputs::new(two_values(String::new(), String::new())),
            id: 0,
            workspace_id,
            theme,
        }
    }

    /// A form holding the command's name and program.
    pub fn edit(parameters: EditCommandFormParameters) -> (r: CommandForm)
        ensures
            r@.inputs == command_form_of(parameters.command@),
            r@.id == parameters.command.id,
            r@.workspace_id == parameters.command.workspace_id,
            r@.theme == parameters.theme,
    {
        let EditCommandFormParameters { command, theme } = parameters;
        let CommandPresenter { workspace_id, id, name, program } = command;
        CommandForm { inputs: FormInputs::new(two_values(name, program)), id, workspace_id, theme }
    }

    /// The command as typed.
    pub fn command(&self) -> (r: CommandPresenter)
        ensures
            r.id == self@.id,
            r.workspace_id == self@.workspace_id,
            r.name@ == self@.inputs.text(0),
            r.program@ == self@.inputs.text(1),
    {
        CommandPresenter {
            workspace_id: self.workspace_id,
            id: self.id,
            name: self.inputs.value(0),
            program: self.inputs.value(1),
        }
    }

    /// The inputs of the form.
    pub fn inputs(&self) -> (r: &FormInputs)
        ensures
            r@ == self@.inputs,
    {
        &self.inputs
    }

    pub fn select_next_input(&mut self)
        ensures
            final(self)@ == (CommandFormView { inputs: old(self)@.inputs.select_next_input(), ..old(self)@ }),
    {
        self.inputs.select_next_input();
    }

    pub fn enter_char(&mut self, c: char)
        ensures
            final(self)@ == (CommandFormView {
                inputs: old(self)@.inputs.edit_active(|v: InputView| v.enter_char(c)),
                ..old(self)@
            }),
    {
        self.inputs.enter_char(c);
    }

    pub fn delete_char(&mut self)
        ensures
            final(self)@ == (CommandFormView {
                inputs: old(self)@.inputs.edit_active(|v: InputView| v.delete_char()),
                ..old(self)@
            }),
    {
        self.inputs.delete_char();
    }

    pub fn delete_all_chars(&mut self)
        ensures
            final(self)@ == (CommandFormView {
                inputs: old(self)@.inputs.edit_active(|v: InputView| v.delete_all_chars()),
                ..old(self)@
            }),
    {
        self.inputs.delete_all_chars();
    }

    pub fn move_cursor_left(&mut self)
        ensures
            final(self)@ == (CommandFormView {
                inputs: old(self)@.inputs.edit_active(|v: InputView| v.move_cursor_left()),
                ..old(self)@
            }),
    {
        self.inputs.move_cursor_left();
    }

    pub fn move_cursor_right(&mut self)
        ensures
            final(self)@ == (CommandFormView {
                inputs: old(self)@.inputs.edit_active(|v: InputView| v.move_cursor_right()),
                ..old(self)@
            }),
    {
        self.inputs.move_cursor_right();
    }
}

/// The form for a workspace: its name and its location.
pub struct WorkspaceForm {
    inputs: FormInputs,
    id: WorkspaceId,
    pub theme: Theme,
}

/// The form for a new workspace.
pub struct NewWorkspaceFormParameters {
    pub theme: Theme,
}

/// The form for editing a workspace.
pub struct EditWorkspaceFormParameters {
    pub workspace: WorkspacePresenter,
    pub theme: Theme,
}

/// A workspace form, as a value: the inputs (name, then location) and the
/// workspace it edits (0 for a workspace not stored yet).
pub struct WorkspaceFormView {
    pub inputs: FormInputsView,
    pub id: WorkspaceId,
    pub theme: Theme,
}

impl View for WorkspaceForm {
    type V = WorkspaceFormView;

    closed spec fn view(&self) -> WorkspaceFormView {
        WorkspaceFormView { inputs: self.inputs@, id: self.id, theme: self.theme }
    }
}

impl WorkspaceForm {
    /// An empty form for a new workspace.
    pub fn new(parameters: NewWorkspaceFormParameters) -> (r: WorkspaceForm)
        ensures
            r@.inputs.inputs == inputs_holding(seq![empty_text(), empty_text()]),
            r@.inputs.active == 0,
            r@.id == 0,
            r@.theme == parameters.theme,
    {
        WorkspaceForm {
            inputs: FormInputs::new(two_values(String::new(), String::new())),
            id: 0,
            theme: parameters.theme,
        }
    }

    /// A form holding the workspace's name and location.
    pub fn edit(parameters: EditWorkspaceFormParameters) -> (r: WorkspaceForm)
        ensures
            r@.inputs == workspace_form_of(parameters.workspace@),
            r@.id == parameters.workspace.id,
            r@.theme == parameters.theme,
    {
        let EditWorkspaceFormParameters { workspace, theme } = parameters;
        let WorkspacePresenter { id, location, name } = workspace;
        WorkspaceForm { inputs: FormInputs::new(two_values(name, location)), id, theme }
    }

    /// The workspace as typed.
    pub fn workspace(&self) -> (r: WorkspacePresenter)
        ensures
            r.id == self@.id,
            r.name@ == self@.inputs.text(0),
            r.location@ == self@.inputs.text(1),
    {
        WorkspacePresenter { id: self.id, name: self.inputs.value(0), location: self.inputs.value(1) }
    }

    /// The inputs of the form.
    pub fn inputs(&self) -> (r: &FormInputs)
        ensures
            r@ == self@.inputs,
    {
        &self.inputs
    }

    pub fn select_next_input(&mut self)
        ensures
            final(self)@ == (WorkspaceFormView { inputs: old(self)@.inputs.select_next_input(), ..old(self)@ }),
    {
        self.inputs.select_next_input();
    }

    pub fn enter_char(&mut self, c: char)
        ensures
            final(self)@ == (WorkspaceFormView {
                inputs: old(self)@.inputs.edit_active(|v: InputView| v.enter_char(c)),
                ..old(self)@
            }),
    {
        self.inputs.enter_char(c);
    }

    pub fn delete_char(&mut self)
        ensures
            final(self)@ == (WorkspaceFormView {
                inputs: old(self)@.inputs.edit_active(|v: InputView| v.delete_char()),
                ..old(self)@
            }),
    {
        self.inputs.delete_char();
    }

    pub fn delete_all_chars(&mut self)
        ensures
            final(self)@ == (WorkspaceFormView {
                inputs: old(self)@.inputs.edit_active(|v: InputView| v.delete_all_chars()),
                ..old(self)@
            }),
    {
        self.inputs.delete_all_chars();
    }

    pub fn move_cursor_left(&mut self)
        ensures
            final(self)@ == (WorkspaceFormView {
                inputs: old(self)@.inputs.edit_active(|v: InputView| v.move_cursor_left()),
                ..old(self)@
            }),
    {
        self.inputs.move_cursor_left();
    }

    pub fn move_cursor_right(&mut self)
        ensures
            final(self)@ == (WorkspaceFormView {
                inputs: old(self)@.inputs.edit_active(|v: InputView| v.move_cursor_right()),
                ..old(self)@
            }),
    {
        self.inputs.move_cursor_right();
    }
}

/// The form for the Notion backup credentials: the API key, then the ids
/// of the commands and workspaces databases.
pub struct NotionBackupCredentialsForm {
    inputs: FormInputs,
    pub theme: Theme,
}

/// The credentials form, filled with the saved credentials if there are any.
pub struct NotionBackupCredentialsFormParameters {
    pub theme: Theme,
    pub notion_backup_credentials_presenter: Option<NotionBackupCredentialsPresenter>,
}

/// The credentials form, as a value: its inputs and the theme it is drawn
/// with.
pub struct NotionBackupCredentialsFormView {
    pub inputs: FormInputsView,
    pub theme: Theme,
}

impl View for NotionBackupCredentialsForm {
    type V = NotionBackupCredentialsFormView;

    closed spec fn view(&self) -> NotionBackupCredentialsFormView {
        NotionBackupCredentialsFormView { inputs: self.inputs@, theme: self.theme }
    }
}

impl NotionBackupCredentialsForm {
    /// The form, holding the given credentials or empty.
    pub fn new(parameters: NotionBackupCredentialsFormParameters) -> (r: NotionBackupCredentialsForm)
        ensures
            r@.inputs == credentials_form_of(parameters.notion_backup_credentials_presenter),
            r@.theme == parameters.theme,
    {
        let NotionBackupCredentialsFormParameters { theme, notion_backup_credentials_presenter } =
            parameters;
        let values = match notion_backup_credentials_presenter {
            Some(c) => {
                let NotionBackupCredentialsPresenter {
                    api_key,
                    commands_database_id,
                    workspaces_database_id,
                } = c;
                three_values(api_key, commands_database_id, workspaces_database_id)
            },
            None => three_values(String::new(), String::new(), String::new()),
        };
        NotionBackupCredentialsForm { inputs: FormInputs::new(values), theme }
    }

    /// The credentials as typed.
    pub fn credentials(&self) -> (r: NotionBackupCredentialsPresenter)
        ensures
            r.api_key@ == self@.inputs.text(0),
            r.commands_database_id@ == self@.inputs.text(1),
            r.workspaces_database_id@ == self@.inputs.text(2),
    {
        NotionBackupCredentialsPresenter {
            api_key: self.inputs.value(0),
            commands_database_id: self.inputs.value(1),
            workspaces_database_id: self.inputs.value(2),
        }
    }

    /// The inputs of the form.
    pub fn inputs(&self) -> (r: &FormInputs)
        ensures
            r@ == self@.inputs,
    {
        &self.inputs
    }

    pub fn select_next_input(&mut self)
        ensures
            final(self)@ == (NotionBackupCredentialsFormView {
                inputs: old(self)@.inputs.select_next_input(),
                ..old(self)@
            }),
    {
        self.inputs.select_next_input();
    }

    pub fn enter_char(&mut self, c: char)
        ensures
            final(self)@ == (NotionBackupCredentialsFormView {
                inputs: old(self)@.inputs.edit_active(|v: InputView| v.enter_char(c)),
                ..old(self)@
            }),
    {
        self.inputs.enter_char(c);
    }

    pub fn delete_char(&mut self)
        ensures
            final(self)@ == (NotionBackupCredentialsFormView {
                inputs: old(self)@.inputs.edit_active(|v: InputView| v.delete_char()),
                ..old(self)@
            }),
    {
        self.inputs.delete_char();
    }

    pub fn delete_all_chars(&mut self)
        ensures
            final(self)@ == (NotionBackupCredentialsFormView {
                inputs: old(self)@.inputs.edit_active(|v: InputView| v.delete_all_chars()),
                ..old(self)@
            }),
    {
        self.inputs.delete_all_chars();
    }

    pub fn move_cursor_left(&mut self)
        ensures
            final(self)@ == (NotionBackupCredentialsFormView {
                inputs: old(self)@.inputs.edit_active(|v: InputView| v.move_cursor_left()),
                ..old(self)@
            }),
    {
        self.inputs.move_cursor_left();
    }

    pub fn move_cursor_right(&mut self)
        ensures
            final(self)@ == (NotionBackupCredentialsFormView {
                inputs: old(self)@.inputs.edit_active(|v: InputView| v.move_cursor_right()),
                ..old(self)@
            }),
    {
        self.inputs.move_cursor_right();
    }
}

} // verus!
