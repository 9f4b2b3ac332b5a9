//! Account addresses as this library sees them: plain 32-byte values.
//!
//! Every account handle that the wrapped programs deal in is identified by a
//! 32-byte public key. The helpers here never look inside an account; they
//! only compare and copy its address, so a fixed byte array is the whole
//! representation.

use vstd::prelude::*;

verus! {

/// A 32-byte account address: the key under which the host runtime and the
/// wrapped programs know an account.
#[derive(Clone, Copy, PartialEq, Eq, Debug)]
pub struct Address {
    pub bytes: [u8; 32],
}

impl View for Address {
    type V = Seq<u8>;

    open spec fn view(&self) -> Seq<u8> {
        self.bytes@
    }
}

impl Address {
    /// Wraps raw address bytes.
    pub fn new(bytes: [u8; 32]) -> (r: Address)
        ensures
            r@ == bytes@,
    {
        Address { bytes }
    }
}

/// Compares two addresses byte for byte.
pub fn addr_eq(a: &Address, b: &Address) -> (r: bool)
    ensures
        r == (a@ == b@),
{
    let mut i: usize = 0;
    while i < 32
        invariant
            i <= 32,
            forall|k: int| 0 <= k < i ==> a.bytes@[k] == b.bytes@[k],
        decreases 32 - i,
    {
        if a.bytes[i] != b.bytes[i] {
            return false;
        }
        i = i + 1;
    }
    proof {
        assert(a@ =~= b@);
    }
    true
}

} // verus!
