//! How a lock is shown for diagnostics.

use vstd::prelude::*;
use std::fmt::Write;

verus! {

/// `String::push_str`: appends `string` to the end of `s`.
pub assume_specification[ String::push_str ](s: &mut String, string: &str)
    ensures
        final(s)@ == old(s)@ + string@,
;

/// `write!` with `{:?}` into a `String`: the text that the `Debug` impl of `T` gives
/// for `value`, or nothing where that impl reports an error. Nothing is claimed of
/// the text: it is whatever that impl writes.
#[verifier::external_body]
pub(crate) fn debug_text<T: std::fmt::Debug>(value: &T) -> (text: Option<String>) {
    let mut text = String::new();
    match write!(text, "{:?}", value) {
        Ok(()) => Some(text),
        Err(_) => None,
    }
}

/// How a lock is shown: with the text of its value where the lock could be taken for
/// a look, with a fixed word in its place where it was held.
pub open spec fn shown(data: Option<Seq<char>>) -> Seq<char> {
    "Lock { data: "@ + match data {
        Some(text) => text,
        None => "<locked>"@,
    } + " }"@
}

/// Shows a lock from the text of its value, or as locked where there is none.
pub fn show(data: Option<&str>) -> (s: String)
    ensures
        s@ == shown(
            match data {
                Some(text) => Some(text@),
                None => None,
            },
        ),
{
    let mut s = "Lock { data: ".to_owned();
    match data {
        Some(text) => s.push_str(text),
        None => s.push_str("<locked>"),
    }
    s.push_str(" }");
    s
}

} // verus!
