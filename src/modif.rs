//! Blocks that configure modifiers: each field names a modifier and gives it
//! a numeric value. Which modifiers exist for which kind of object is a
//! schema kept apart from this crate; here the values are checked.
use vstd::prelude::*;

use crate::block::{sigs, Block, Field, Sig};
use crate::report::Sink;
use crate::values::{check_number, number_sigs};

verus! {

/// The diagnostics of the values of `fields[..n]`.
pub open spec fn modif_sigs(fields: Seq<Field>, n: int) -> Seq<Sig>
    decreases n,
{
    if n <= 0 || n > fields.len() {
        seq![]
    } else {
        modif_sigs(fields, n - 1) + number_sigs(fields[n - 1])
    }
}

/// Checks that every field of a modifier block has a number for its value.
pub fn validate_modifs(block: &Block, sink: &mut Sink)
    ensures
        sigs(final(sink)@) == sigs(old(sink)@) + modif_sigs(block.fields@, block.fields@.len() as int),
{
    let mut i: usize = 0;
    while i < block.fields.len()
        invariant
            i <= block.fields@.len(),
            sigs(sink@) == sigs(old(sink)@) + modif_sigs(block.fields@, i as int),
        decreases block.fields@.len() - i,
    {
        check_number(&block.fields[i], sink);
        i = i + 1;
        assert(sigs(sink@) =~= sigs(old(sink)@) + modif_sigs(block.fields@, i as int));
    }
}

} // verus!
