//! The yes/no answer given at the confirmation prompt.

use vstd::prelude::*;
use crate::error::UpdateError;

verus! {

/// What `str::trim` yields: the text with leading and trailing Unicode
/// whitespace removed.
pub uninterp spec fn trimmed_of(s: Seq<char>) -> Seq<char>;

/// Relies on `str::trim`, which removes leading and trailing whitespace and
/// depends on the text alone.
#[verifier::external_body]
fn trim_text(s: &str) -> (r: &str)
    ensures
        r@ == trimmed_of(s@),
        s@.len() == 0 ==> r@.len() == 0,
{
    s.trim()
}

/// A trimmed answer agrees to go on: it is empty (the default) or a `y` in
/// either case.
pub open spec fn agrees(t: Seq<char>) -> bool {
    t.len() == 0 || t == seq!['y'] || t == seq!['Y']
}

/// Decides on an answer that is already trimmed: proceeds when it agrees,
/// else fails with `UserCancelled`.
pub fn decide_trimmed_answer(t: &str) -> (r: Result<(), UpdateError>)
    ensures
        r is Ok <==> agrees(t@),
        r matches Err(e) ==> e == UpdateError::UserCancelled,
{
    let n = t.unicode_len();
    if n == 0 {
        return Ok(());
    }
    if n == 1 {
        let c = t.get_char(0);
        if c == 'y' || c == 'Y' {
            assert(t@ =~= seq![c]);
            return Ok(());
        }
    }
    Err(UpdateError::UserCancelled)
}

/// Decides on one line read at the confirmation prompt: proceeds when the
/// trimmed line is empty or `y`/`Y`, else fails with `UserCancelled`.
pub fn confirm_answer(line: &str) -> (r: Result<(), UpdateError>)
    ensures
        r is Ok <==> agrees(trimmed_of(line@)),
        r matches Err(e) ==> e == UpdateError::UserCancelled,
        line@.len() == 0 ==> r is Ok,
{
    decide_trimmed_answer(trim_text(line))
}

} // verus!
