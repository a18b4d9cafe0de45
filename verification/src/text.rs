//! Text helpers for the chat-list search.

use vstd::prelude::*;

verus! {

/// The case-folded form of a character sequence, as `str::to_lowercase`
/// computes it.  Unicode case folding takes pages to state, so the result
/// only carries this name; it depends on the characters alone.
pub uninterp spec fn lower_of(s: Seq<char>) -> Seq<char>;

/// Relies on `str::to_lowercase`: the result is a function of the input
/// characters alone; it is empty exactly when the input is empty (every
/// character lowers to at least one character).
#[verifier::external_body]
pub fn to_lower(s: &str) -> (r: String)
    ensures
        r@ == lower_of(s@),
        (s@.len() == 0) == (r@.len() == 0),
{
    s.to_lowercase()
}

/// `needle` occurs contiguously inside `hay`.
pub open spec fn has_substring(hay: Seq<char>, needle: Seq<char>) -> bool {
    exists|i: int|
        0 <= i && i + needle.len() <= hay.len() && #[trigger] hay.subrange(i, i + needle.len())
            == needle
}

/// Relies on `str::contains` with a `&str` pattern: true exactly when the
/// needle occurs as a substring of the hay.
#[verifier::external_body]
pub fn contains_sub(hay: &str, needle: &str) -> (r: bool)
    ensures
        r == has_substring(hay@, needle@),
{
    hay.contains(needle)
}

/// Relies on `String::push`: appends exactly the one character.
#[verifier::external_body]
fn push_char(s: &mut String, c: char)
    ensures
        final(s)@ == old(s)@ + seq![c],
{
    s.push(c)
}

/// The decimal digit character for `d`.
pub open spec fn digit_char(d: int) -> char {
    ((d + 48) as u8) as char
}

/// The five characters of a zero-padded `HH:MM` clock label.
pub open spec fn clock_label_spec(hours: int, minutes: int) -> Seq<char> {
    seq![
        digit_char(hours / 10),
        digit_char(hours % 10),
        ':',
        digit_char(minutes / 10),
        digit_char(minutes % 10),
    ]
}

/// Renders a wall-clock reading as the zero-padded label the chat list
/// shows.  The caller converts its timestamp to local hours and minutes.
pub fn clock_label(hours: u8, minutes: u8) -> (r: String)
    requires
        hours < 24,
        minutes < 60,
    ensures
        r@ == clock_label_spec(hours as int, minutes as int),
{
    let mut r = String::new();
    push_char(&mut r, (48 + hours / 10) as char);
    push_char(&mut r, (48 + hours % 10) as char);
    push_char(&mut r, ':');
    push_char(&mut r, (48 + minutes / 10) as char);
    push_char(&mut r, (48 + minutes % 10) as char);
    proof {
        assert(r@ =~= clock_label_spec(hours as int, minutes as int));
    }
    r
}

} // verus!
