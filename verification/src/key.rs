//! Account addresses as plain 32-byte values.

use vstd::prelude::*;

verus! {

/// The address of an on-chain account: 32 bytes, compared byte by byte.
#[derive(Clone, Copy, Debug)]
pub struct Key {
    pub bytes: [u8; 32],
}

impl View for Key {
    type V = Seq<u8>;

    open spec fn view(&self) -> Seq<u8> {
        self.bytes@
    }
}

impl Key {
    /// The address whose 32 bytes are `bytes`.
    pub fn new_from_array(bytes: [u8; 32]) -> (k: Key)
        ensures
            k.bytes == bytes,
            k@ == bytes@,
    {
        Key { bytes }
    }

    /// The 32 bytes of the address.
    pub fn to_bytes(&self) -> (b: [u8; 32])
        ensures
            b == self.bytes,
            b@ == self@,
    {
        self.bytes
    }

    /// Whether two addresses hold the same bytes.
    pub fn equals(&self, other: &Key) -> (r: bool)
        ensures
            r == (self@ == other@),
    {
        let mut i: usize = 0;
        while i < 32
            invariant
                0 <= i <= 32,
                self@.len() == 32,
                other@.len() == 32,
                forall|j: int| 0 <= j < i ==> self@[j] == other@[j],
            decreases 32 - i,
        {
            if self.bytes[i] != other.bytes[i] {
                return false;
            }
            i = i + 1;
        }
        assert(self@ =~= other@);
        true
    }
}

impl PartialEq for Key {
    fn eq(&self, other: &Key) -> (r: bool) {
        self.equals(other)
    }
}

impl vstd::std_specs::cmp::PartialEqSpecImpl for Key {
    open spec fn obeys_eq_spec() -> bool {
        true
    }

    open spec fn eq_spec(&self, other: &Key) -> bool {
        self@ == other@
    }
}

impl Eq for Key {}

} // verus!
