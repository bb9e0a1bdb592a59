//! Specifications of `String` methods that the library calls and that the
//! verifier's standard library leaves unspecified.

use vstd::prelude::*;

verus! {

/// `String::push` appends the given character to the end of the string and
/// leaves the characters before it as they were. This is taken from the
/// standard library's documentation and is not proved here.
pub assume_specification[ String::push ](s: &mut String, ch: char)
    ensures
        final(s)@ == old(s)@.push(ch),
;

} // verus!
