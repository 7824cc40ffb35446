//! What the input buffer relies on from `String`.

use vstd::prelude::*;

verus! {

/// What the documentation of `String::push` says: the character is appended
/// to the end.
pub assume_specification[ String::push ](text: &mut String, c: char)
    ensures
        final(text)@ == old(text)@.push(c),
;

/// What the documentation of `String::pop` says: the last character is
/// removed and returned, and `None` is returned if the string is empty.
pub assume_specification[ String::pop ](text: &mut String) -> (last: Option<char>)
    ensures
        old(text)@.len() == 0 ==> last == None::<char> && final(text)@ == old(text)@,
        old(text)@.len() > 0 ==> last == Some(old(text)@.last()) && final(text)@ == old(
            text,
        )@.drop_last(),
;

} // verus!
