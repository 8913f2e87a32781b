//! Fixed-size account identity values.

use vstd::prelude::*;

verus! {

/// Number of bytes in an [`Address`].
pub const ADDRESS_BYTES: usize = 32;

/// A 32-byte account identity with no structure beyond byte-wise equality.
pub type Address = [u8; ADDRESS_BYTES];

/// The address of the system program: 32 zero bytes.
pub fn system_program_id() -> (r: Address)
    ensures
        r@ == Seq::new(32, |i: int| 0u8),
{
    [0u8; 32]
}

/// Compare two addresses byte by byte.
pub fn address_eq(a: &Address, b: &Address) -> (r: bool)
    ensures
        r <==> a@ == b@,
{
    let mut i: usize = 0;
    while i < 32
        invariant
            0 <= i <= 32,
            forall|j: int| 0 <= j < i ==> a@[j] == b@[j],
        decreases 32 - i,
    {
        if a[i] != b[i] {
            assert(a@[i as int] != b@[i as int]);
            return false;
        }
        i = i + 1;
    }
    assert(a@ =~= b@);
    true
}

} // verus!
