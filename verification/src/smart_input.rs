//! The input under a list: it searches the list, or, once its text starts
//! with `>`, picks one of the screen's commands by the start of its name.
use vstd::prelude::*;
use crate::input::{Input, InputView};
use crate::text::{chars_of, string_from_chars};
use crate::theme::Theme;

verus! {

/// The character that turns the input into a command prompt.
pub const COMMAND_PREFIX: char = '>';

/// The input of a list screen.
pub struct SmartInput {
    input: Input,
    commands: Vec<String>,
    theme: Theme,
}

/// The commands the input offers, and how to draw it.
pub struct NewSmartInputParameters {
    pub commands: Vec<String>,
    pub theme: Theme,
}

/// What the input holds: a search, or a command picked by its name.
#[derive(Debug, PartialEq, Eq)]
pub enum Value {
    Base(String),
    Command(String),
}

/// `Value` as a value.
pub enum ValueView {
    Base(Seq<char>),
    Command(Seq<char>),
}

impl View for Value {
    type V = ValueView;

    open spec fn view(&self) -> ValueView {
        match self {
            Value::Base(s) => ValueView::Base(s@),
            Value::Command(s) => ValueView::Command(s@),
        }
    }
}

/// The input, as a value: the text typed and the names of the commands.
pub struct SmartInputView {
    pub input: InputView,
    pub commands: Seq<Seq<char>>,
    pub theme: Theme,
}

impl View for SmartInput {
    type V = SmartInputView;

    closed spec fn view(&self) -> SmartInputView {
        SmartInputView {
            input: self.input@,
            commands: self.commands@.map_values(|c: String| c@),
            theme: self.theme,
        }
    }
}

/// Whether `text` is a command prompt.
pub open spec fn is_prompt(text: Seq<char>) -> bool {
    text.len() > 0 && text[0] == COMMAND_PREFIX
}

/// The first command whose name starts with `typed`.
pub open spec fn matching_command(commands: Seq<Seq<char>>, typed: Seq<char>) -> Option<Seq<char>>
    decreases commands.len(),
{
    if commands.len() == 0 {
        None
    } else if typed.is_prefix_of(commands[0]) {
        Some(commands[0])
    } else {
        matching_command(commands.drop_first(), typed)
    }
}

/// What is searched for: the text, unless it is a command prompt.
pub open spec fn search_of(v: SmartInputView) -> Option<Seq<char>> {
    if is_prompt(v.input.text) {
        None
    } else {
        Some(v.input.text)
    }
}

/// The command picked: on a prompt, the first command whose name starts
/// with what follows the `>`.
pub open spec fn command_of(v: SmartInputView) -> Option<Seq<char>> {
    if is_prompt(v.input.text) {
        matching_command(v.commands, v.input.text.drop_first())
    } else {
        None
    }
}

/// What the input holds.
pub open spec fn value_of(v: SmartInputView) -> Option<ValueView> {
    if is_prompt(v.input.text) {
        match command_of(v) {
            Some(c) => Some(ValueView::Command(c)),
            None => None,
        }
    } else {
        Some(ValueView::Base(v.input.text))
    }
}

/// The input with its text edited by `f`.
pub open spec fn edit(v: SmartInputView, f: spec_fn(InputView) -> InputView) -> SmartInputView {
    SmartInputView { input: f(v.input), ..v }
}

/// Tab on a prompt completes the name of the command picked.
pub open spec fn autocompleted(v: SmartInputView) -> SmartInputView {
    match command_of(v) {
        Some(c) => SmartInputView { input: InputView::with_text(seq![COMMAND_PREFIX] + c), ..v },
        None => v,
    }
}

/// Toggling leaves a prompt for an empty search, or opens an empty prompt.
pub open spec fn toggled(v: SmartInputView) -> SmartInputView {
    if is_prompt(v.input.text) {
        SmartInputView { input: InputView::with_text(Seq::empty()), ..v }
    } else {
        SmartInputView { input: InputView::with_text(seq![COMMAND_PREFIX]), ..v }
    }
}

/// Whether `text[from..]` is a prefix of `name`.
fn starts_with_rest(name: &Vec<char>, text: &Vec<char>, from: usize) -> (r: bool)
    requires
        from <= text.len(),
    ensures
        r == text@.subrange(from as int, text@.len() as int).is_prefix_of(name@),
{
    let n = text.len() - from;
    if n > name.len() {
        return false;
    }
    let mut i: usize = 0;
    while i < n
        invariant
            n == text.len() - from,
            n <= name.len(),
            from <= text.len(),
            i <= n,
            forall|j: int| 0 <= j < i ==> name@[j] == text@[from + j],
        decreases n - i,
    {
        if name[i] != text[from + i] {
            assert(text@.subrange(from as int, text@.len() as int)[i as int] != name@.subrange(0, n as int)[i as int]);
            return false;
        }
        i = i + 1;
    }
    assert(text@.subrange(from as int, text@.len() as int) =~= name@.subrange(0, n as int));
    true
}

proof fn lemma_matching_skip(commands: Seq<Seq<char>>, typed: Seq<char>, i: int)
    requires
        0 <= i < commands.len(),
        !typed.is_prefix_of(commands[i]),
    ensures
        matching_command(commands.skip(i), typed) == matching_command(commands.skip(i + 1), typed),
{
    assert(commands.skip(i).drop_first() =~= commands.skip(i + 1));
    assert(commands.skip(i)[0] == commands[i]);
}

proof fn lemma_matching_hit(commands: Seq<Seq<char>>, typed: Seq<char>, i: int)
    requires
        0 <= i < commands.len(),
        typed.is_prefix_of(commands[i]),
    ensures
        matching_command(commands.skip(i), typed) == Some(commands[i]),
{
    assert(commands.skip(i)[0] == commands[i]);
}

impl SmartInput {
    /// An empty search offering `commands`.
    pub fn new(parameters: NewSmartInputParameters) -> (r: SmartInput)
        ensures
            r@.input == InputView::with_text(Seq::empty()),
            r@.commands == parameters.commands@.map_values(|c: String| c@),
            r@.theme == parameters.theme,
    {
        let NewSmartInputParameters { commands, theme } = parameters;
        SmartInput { input: Input::empty(), commands, theme }
    }

    /// The text typed and its cursor.
    pub fn input(&self) -> (r: &Input)
        ensures
            r@ == self@.input,
    {
        &self.input
    }

    /// How to draw the input.
    pub fn theme(&self) -> (r: Theme)
        ensures
            r == self@.theme,
    {
        self.theme
    }

    /// Whether the text is a command prompt.
    pub fn is_prompt(&self) -> (r: bool)
        ensures
            r == is_prompt(self@.input.text),
    {
        let chars = self.input.chars();
        chars.len() > 0 && chars[0] == COMMAND_PREFIX
    }

    /// What is searched for, unless the text is a command prompt.
    pub fn search(&self) -> (r: Option<String>)
        ensures
            match r {
                Some(s) => search_of(self@) == Some(s@),
                None => search_of(self@) is None,
            },
    {
        if self.is_prompt() {
            None
        } else {
            Some(self.input.value())
        }
    }

    /// The command picked on a prompt: the first whose name starts with
    /// what follows the `>`.
    pub fn command(&self) -> (r: Option<String>)
        ensures
            match r {
                Some(s) => command_of(self@) == Some(s@),
                None => command_of(self@) is None,
            },
    {
        if !self.is_prompt() {
            return None;
        }
        let text = self.input.chars();
        let ghost typed = text@.drop_first();
        let ghost all = self@.commands;
        proof {
            assert(text@.subrange(1, text@.len() as int) =~= typed);
            assert(all.skip(0) =~= all);
        }
        let mut i: usize = 0;
        while i < self.commands.len()
            invariant
                i <= self.commands.len(),
                all == self.commands@.map_values(|c: String| c@),
                text@.len() > 0,
                text@ == self@.input.text,
                is_prompt(self@.input.text),
                typed == text@.drop_first(),
                text@.subrange(1, text@.len() as int) == typed,
                matching_command(all, typed) == matching_command(all.skip(i as int), typed),
            decreases self.commands.len() - i,
        {
            let name = chars_of(self.commands[i].as_str());
            if starts_with_rest(&name, text, 1) {
                proof {
                    assert(all[i as int] == name@);
                    lemma_matching_hit(all, typed, i as int);
                }
                return Some(string_from_chars(&name));
            }
            proof {
                lemma_matching_skip(all, typed, i as int);
            }
            i = i + 1;
        }
        proof {
            assert(all.skip(i as int) =~= Seq::<Seq<char>>::empty());
        }
        None
    }

    /// What the input holds: a search, or the command picked on a prompt.
    pub fn value(&self) -> (r: Option<Value>)
        ensures
            match r {
                Some(v) => value_of(self@) == Some(v@),
                None => value_of(self@) is None,
            },
    {
        if self.is_prompt() {
            match self.command() {
                Some(c) => Some(Value::Command(c)),
                None => None,
            }
        } else {
            Some(Value::Base(self.input.value()))
        }
    }

    /// Completes the name of the command picked on a prompt.
    pub fn autocomplete(&mut self)
        ensures
            final(self)@ == autocompleted(old(self)@),
    {
        if let Some(command) = self.command() {
            let mut chars: Vec<char> = Vec::new();
            chars.push(COMMAND_PREFIX);
            let name = chars_of(command.as_str());
            let mut i: usize = 0;
            while i < name.len()
                invariant
                    i <= name.len(),
                    chars@ == seq![COMMAND_PREFIX] + name@.take(i as int),
                decreases name.len() - i,
            {
                chars.push(name[i]);
                proof {
                    assert(name@.take(i as int + 1) =~= name@.take(i as int).push(name@[i as int]));
                    assert(seq![COMMAND_PREFIX] + name@.take(i as int + 1) =~= (seq![COMMAND_PREFIX] + name@.take(i as int)).push(name@[i as int]));
                }
                i = i + 1;
            }
            proof {
                assert(name@.take(name@.len() as int) =~= name@);
            }
            self.input = Input::from_chars(chars);
        }
    }

    /// Leaves a prompt for an empty search, or opens an empty prompt.
    pub fn toggle_input(&mut self)
        ensures
            final(self)@ == toggled(old(self)@),
    {
        if self.is_prompt() {
            self.input = Input::empty();
        } else {
            let mut chars: Vec<char> = Vec::new();
            chars.push(COMMAND_PREFIX);
            proof {
                assert(chars@ =~= seq![COMMAND_PREFIX]);
            }
            self.input = Input::from_chars(chars);
        }
    }

    /// Empties the input.
    pub fn reset_input(&mut self)
        ensures
            final(self)@ == edit(old(self)@, |v: InputView| v.delete_all_chars()),
    {
        self.input.delete_all_chars();
    }

    /// Types `c` at the cursor.
    pub fn enter_char(&mut self, c: char)
        ensures
            final(self)@ == edit(old(self)@, |v: InputView| v.enter_char(c)),
    {
        self.input.enter_char(c);
    }

    /// Deletes the character before the cursor.
    pub fn delete_char(&mut self)
        ensures
            final(self)@ == edit(old(self)@, |v: InputView| v.delete_char()),
    {
        self.input.delete_char();
    }

    /// Moves the cursor one character left.
    pub fn move_cursor_left(&mut self)
        ensures
            final(self)@ == edit(old(self)@, |v: InputView| v.move_cursor_left()),
    {
        self.input.move_cursor_left();
    }

    /// Moves the cursor one character right.
    pub fn move_cursor_right(&mut self)
        ensures
            final(self)@ == edit(old(self)@, |v: InputView| v.move_cursor_right()),
    {
        self.input.move_cursor_right();
    }
}

/// The command picked for a name is a command whose name starts with it.
proof fn lemma_match_has_prefix(commands: Seq<Seq<char>>, typed: Seq<char>)
    ensures
        matching_command(commands, typed) matches Some(c) ==> typed.is_prefix_of(c) && commands.contains(c),
    decreases commands.len(),
{
    if commands.len() > 0 && !typed.is_prefix_of(commands[0]) {
        lemma_match_has_prefix(commands.drop_first(), typed);
        if let Some(c) = matching_command(commands.drop_first(), typed) {
            let k = choose|k: int| 0 <= k < commands.drop_first().len() && commands.drop_first()[k] == c;
            assert(commands[k + 1] == c);
        }
    }
}

/// A command whose name starts with `longer` is picked for it, when one is
/// picked for a prefix of `longer`, and the pick for the prefix starts with
/// `longer`: the same command is picked for both.
proof fn lemma_match_of_completion(commands: Seq<Seq<char>>, typed: Seq<char>, name: Seq<char>)
    requires
        matching_command(commands, typed) == Some(name),
    ensures
        matching_command(commands, name) == Some(name),
    decreases commands.len(),
{
    lemma_match_has_prefix(commands, typed);
    if typed.is_prefix_of(commands[0]) {
        assert(commands[0] == name);
        assert(name.is_prefix_of(commands[0])) by {
            assert(name =~= commands[0].subrange(0, name.len() as int));
        }
    } else {
        if name.is_prefix_of(commands[0]) {
            assert(typed.is_prefix_of(commands[0])) by {
                assert(typed =~= name.subrange(0, typed.len() as int));
                assert(typed =~= commands[0].subrange(0, typed.len() as int));
            }
        }
        lemma_match_of_completion(commands.drop_first(), typed, name);
    }
}

/// Completing a command name twice is the same as completing it once.
pub proof fn lemma_autocomplete_is_idempotent(v: SmartInputView)
    ensures
        autocompleted(autocompleted(v)) == autocompleted(v),
{
    if let Some(name) = command_of(v) {
        let text = seq![COMMAND_PREFIX] + name;
        assert(text.drop_first() =~= name);
        lemma_match_of_completion(v.commands, v.input.text.drop_first(), name);
    }
}

/// Toggling twice from a search leaves an empty search; from a prompt, an
/// empty prompt.
pub proof fn lemma_toggle_twice(v: SmartInputView)
    ensures
        !is_prompt(v.input.text) ==> toggled(toggled(v)).input == InputView::with_text(Seq::empty()),
        is_prompt(v.input.text) ==> toggled(toggled(v)).input == InputView::with_text(seq![COMMAND_PREFIX]),
{
}

} // verus!
