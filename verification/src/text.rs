//! The one std string operation this crate needs beyond what vstd specifies.

use vstd::prelude::*;

verus! {

/// Relies on String::push, which appends the given character to the end of
/// the string.
pub assume_specification[ String::push ](s: &mut String, c: char)
    ensures
        final(s)@ == old(s)@ + seq![c],
;

} // verus!
