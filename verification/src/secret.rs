//! Overwriting secret bytes.

use vstd::prelude::*;

verus! {

/// Whether only zeros are left.
pub open spec fn is_wiped(bytes: Seq<u8>) -> bool {
    forall|i: int| 0 <= i < bytes.len() ==> #[trigger] bytes[i] == 0
}

/// Overwrites every byte with zero.
pub fn wipe(bytes: &mut Vec<u8>)
    ensures
        final(bytes)@.len() == old(bytes)@.len(),
        is_wiped(final(bytes)@),
{
    let mut i: usize = 0;
    while i < bytes.len()
        invariant
            i <= bytes@.len(),
            bytes@.len() == old(bytes)@.len(),
            forall|j: int| 0 <= j < i ==> #[trigger] bytes@[j] == 0,
        decreases bytes@.len() - i,
    {
        bytes[i] = 0;
        i += 1;
    }
}

/// Overwrites every byte before the memory is given back.
pub(crate) fn give_up(bytes: Vec<u8>) {
    let mut bytes = bytes;
    wipe(&mut bytes);
}

} // verus!
