//! Small string helpers over std that the models use: building a `String`
//! out of characters and comparing strings.
use vstd::prelude::*;

verus! {

/// Appends one character to a `String` (std `String::push`).
/// The contract states what std documents: the character is added at the end.
#[verifier::external_body]
pub(crate) fn string_push(s: &mut String, c: char)
    ensures
        final(s)@ == old(s)@.push(c),
{
    s.push(c)
}

/// Removes the last character of a `String` (std `String::pop`).
/// The contract states what std documents: the last character is removed
/// and returned, and an empty string is left as it is.
#[verifier::external_body]
pub(crate) fn string_pop(s: &mut String) -> (r: Option<char>)
    ensures
        old(s)@.len() == 0 ==> r is None && final(s)@ == old(s)@,
        old(s)@.len() > 0 ==> r == Some(old(s)@.last()) && final(s)@ == old(s)@.drop_last(),
{
    s.pop()
}

/// Whether two string slices hold the same characters.
pub(crate) fn str_eq(a: &str, b: &str) -> (r: bool)
    ensures
        r == (a@ == b@),
{
    let x = chars_of(a);
    let y = chars_of(b);
    if x.len() != y.len() {
        return false;
    }
    let mut i: usize = 0;
    while i < x.len()
        invariant
            i <= x.len(),
            x.len() == y.len(),
            x@ == a@,
            y@ == b@,
            forall|j: int| 0 <= j < i ==> x@[j] == y@[j],
        decreases x.len() - i,
    {
        if x[i] != y[i] {
            return false;
        }
        i = i + 1;
    }
    proof {
        assert(a@ =~= b@);
    }
    true
}

/// An owned copy of a string slice.
pub fn owned(s: &str) -> (r: String)
    ensures
        r@ == s@,
{
    broadcast use vstd::string::group_string_axioms;
    s.to_string()
}

/// Builds a `String` holding exactly the given characters.
pub fn string_from_chars(chars: &Vec<char>) -> (s: String)
    ensures
        s@ == chars@,
{
    let mut s = String::new();
    let mut i: usize = 0;
    while i < chars.len()
        invariant
            i <= chars.len(),
            s@ == chars@.take(i as int),
        decreases chars.len() - i,
    {
        string_push(&mut s, chars[i]);
        proof {
            assert(chars@.take(i as int + 1) =~= chars@.take(i as int).push(chars@[i as int]));
        }
        i = i + 1;
    }
    proof {
        assert(chars@.take(chars@.len() as int) =~= chars@);
    }
    s
}

/// The characters of a string, in order.
pub fn chars_of(s: &str) -> (v: Vec<char>)
    ensures
        v@ == s@,
{
    broadcast use vstd::string::group_string_axioms;
    let mut v: Vec<char> = Vec::new();
    for c in it: s.chars()
        invariant
            v@ == it.seq().take(it.index()),
    {
        v.push(c);
        proof {
            assert(it.seq().take(it.index() + 1) =~= it.seq().take(it.index() as int).push(c));
        }
    }
    v
}

/// The decimal digits of `n`, most significant first.
pub open spec fn decimal(n: nat) -> Seq<char>
    decreases n,
{
    if n < 10 {
        seq![((n + 48) as u8) as char]
    } else {
        decimal(n / 10).push((((n % 10) + 48) as u8) as char)
    }
}

/// The decimal digits of `n`, most significant first.
fn decimal_text(n: u32) -> (r: String)
    ensures
        r@ == decimal(n as nat),
    decreases n,
{
    let digit: u8 = (n % 10) as u8;
    let c: char = (digit + 48) as char;
    if n < 10 {
        let mut r = String::new();
        string_push(&mut r, c);
        proof {
            assert(r@ =~= decimal(n as nat));
        }
        r
    } else {
        let mut r = decimal_text(n / 10);
        string_push(&mut r, c);
        r
    }
}

/// Appends the characters of `tail` to `s`.
pub(crate) fn push_all(s: &mut String, tail: &str)
    ensures
        final(s)@ == old(s)@ + tail@,
{
    let chars = chars_of(tail);
    let mut i: usize = 0;
    while i < chars.len()
        invariant
            i <= chars.len(),
            chars@ == tail@,
            s@ == old(s)@ + tail@.take(i as int),
        decreases chars.len() - i,
    {
        string_push(s, chars[i]);
        proof {
            assert(tail@.take(i as int + 1) =~= tail@.take(i as int).push(chars@[i as int]));
            assert(old(s)@ + tail@.take(i as int + 1) =~= (old(s)@ + tail@.take(i as int)).push(chars@[i as int]));
        }
        i = i + 1;
    }
    proof {
        assert(tail@.take(chars@.len() as int) =~= tail@);
    }
}

/// `label`, a space, and `n` in decimal between parentheses.
pub fn labelled_number(label: &str, n: u32) -> (r: String)
    ensures
        r@ == label@ + seq![' ', '('] + decimal(n as nat) + seq![')'],
{
    let mut r = owned(label);
    string_push(&mut r, ' ');
    string_push(&mut r, '(');
    let digits = decimal_text(n);
    push_all(&mut r, digits.as_str());
    string_push(&mut r, ')');
    proof {
        assert(label@.push(' ').push('(') =~= label@ + seq![' ', '(']);
        assert((label@ + seq![' ', '('] + decimal(n as nat)).push(')')
            =~= label@ + seq![' ', '('] + decimal(n as nat) + seq![')']);
    }
    r
}

} // verus!
