//! Fixed-size identifier types: opaque byte blobs of a known length.

use vstd::prelude::*;

verus! {

/// A 32-byte identifier blob: the width of the digests and transaction
/// identifiers of the VM.
#[derive(Clone, Copy, Debug, Eq)]
pub struct Bytes32 {
    bytes: [u8; 32],
}

impl PartialEq for Bytes32 {
    fn eq(&self, other: &Self) -> bool {
        let mut i: usize = 0;
        let mut same = true;
        while i < 32
            invariant
                0 <= i <= 32,
                same == (forall|j: int| 0 <= j < i ==> self.bytes@[j] == other.bytes@[j]),
            decreases 32 - i,
        {
            if self.bytes[i] != other.bytes[i] {
                same = false;
            }
            i += 1;
        }
        proof {
            if same {
                assert(self.bytes@ =~= other.bytes@);
            } else {
                let j = choose|j: int|
                    0 <= j < 32 && self.bytes@[j] != other.bytes@[j];
                assert(self.bytes@[j] != other.bytes@[j]);
            }
        }
        same
    }
}

impl vstd::std_specs::cmp::PartialEqSpecImpl for Bytes32 {
    open spec fn obeys_eq_spec() -> bool {
        true
    }

    open spec fn eq_spec(&self, other: &Bytes32) -> bool {
        self@ == other@
    }
}

/// Identifier of a transaction.
pub type TxId = Bytes32;

impl View for Bytes32 {
    type V = Seq<u8>;

    closed spec fn view(&self) -> Seq<u8> {
        self.bytes@
    }
}

/// The view of a [`Bytes32`] always holds exactly [`Bytes32::LEN`] bytes.
pub broadcast proof fn lemma_bytes32_view_len(b: Bytes32)
    ensures
        (#[trigger] b@).len() == Bytes32::LEN,
{
}

impl Bytes32 {
    /// Memory length of the type.
    pub const LEN: usize = 32;

    /// Bytes constructor.
    pub fn new(bytes: [u8; 32]) -> (r: Self)
        ensures
            r@ == bytes@,
    {
        Self { bytes }
    }

    /// Zeroes bytes constructor.
    pub fn zeroed() -> (r: Self)
        ensures
            r@.len() == Bytes32::LEN,
            forall|i: int| 0 <= i < r@.len() ==> r@[i] == 0u8,
    {
        Self { bytes: [0; 32] }
    }

    /// The memory size of the type by the method.
    pub fn size(&self) -> (r: usize)
        ensures
            r == Bytes32::LEN,
            r == self@.len(),
    {
        Self::LEN
    }

    /// Read access to the underlying bytes.
    pub fn as_slice(&self) -> (r: &[u8])
        ensures
            r@ == self@,
    {
        vstd::array::array_as_slice(&self.bytes)
    }
}

} // verus!
