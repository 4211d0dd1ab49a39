//! Reading the quit command of the interactive prompt.
use vstd::prelude::*;

verus! {

/// The lower-case form of a string, as `str::to_lowercase` computes it.
pub uninterp spec fn lower_of(s: Seq<char>) -> Seq<char>;

/// Relies on `str::to_lowercase`: its result depends on the characters alone.
#[verifier::external_body]
fn lowercase(s: &str) -> (r: String)
    ensures
        r@ == lower_of(s@),
{
    s.to_lowercase()
}

/// Tells whether an already lower-cased input is the quit command `q`.
pub fn is_quit_word(lowered: &str) -> (r: bool)
    ensures
        r == (lowered@ == seq!['q']),
{
    if lowered.unicode_len() != 1 {
        return false;
    }
    let c: char = lowered.get_char(0);
    proof {
        if c == 'q' {
            assert(lowered@ =~= seq!['q']);
        }
    }
    c == 'q'
}

/// Tells whether a trimmed input line asks to quit: its lower-case form is
/// exactly `q`.
pub fn is_quit_command(input: &str) -> (r: bool)
    ensures
        r == (lower_of(input@) == seq!['q']),
{
    let lowered: String = lowercase(input);
    is_quit_word(lowered.as_str())
}

} // verus!
