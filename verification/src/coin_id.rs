//! Identifier of a coin: a transaction id plus the index of the output
//! of that transaction which created the coin.

use crate::types::TxId;
use vstd::prelude::*;

verus! {

broadcast use crate::types::lemma_bytes32_view_len;

/// Atomic type to represent the identifier of a coin.
///
/// Viewed as its `LEN` bytes: the transaction id followed by the output
/// index.
#[derive(Clone, Copy, Debug, Eq)]
pub struct CoinId {
    tx_id: TxId,
    output_index: u8,
}

impl PartialEq for CoinId {
    fn eq(&self, other: &Self) -> bool {
        let r = self.tx_id == other.tx_id && self.output_index == other.output_index;
        proof {
            if r {
                assert(self@ =~= other@);
            } else if self.tx_id@ != other.tx_id@ {
                assert(self@ != other@) by {
                    if self@ == other@ {
                        assert forall|j: int| 0 <= j < 32 implies self.tx_id@[j]
                            == other.tx_id@[j] by {
                            assert(self@[j] == other@[j]);
                        }
                        assert(self.tx_id@ =~= other.tx_id@);
                    }
                }
            } else {
                assert(self@[32] != other@[32]);
            }
        }
        r
    }
}

impl vstd::std_specs::cmp::PartialEqSpecImpl for CoinId {
    open spec fn obeys_eq_spec() -> bool {
        true
    }

    open spec fn eq_spec(&self, other: &CoinId) -> bool {
        self@ == other@
    }
}

impl View for CoinId {
    type V = Seq<u8>;

    closed spec fn view(&self) -> Seq<u8> {
        self.tx_id@.push(self.output_index)
    }
}

impl CoinId {
    /// Memory length of the type.
    pub const LEN: usize = 33;

    /// Bytes constructor.
    pub fn new(bytes: [u8; 33]) -> (r: Self)
        ensures
            r@ == bytes@,
    {
        let r = bytes;

        let tx_id: [u8; 32] = [
            r[0], r[1], r[2], r[3], r[4], r[5], r[6], r[7],
            r[8], r[9], r[10], r[11], r[12], r[13], r[14], r[15],
            r[16], r[17], r[18], r[19], r[20], r[21], r[22], r[23],
            r[24], r[25], r[26], r[27], r[28], r[29], r[30], r[31],
        ];

        let output_index = r[32];

        let id = Self { tx_id: TxId::new(tx_id), output_index };
        proof {
            assert(id@ =~= bytes@);
        }
        id
    }

    /// Zeroes bytes constructor.
    pub fn zeroed() -> (r: Self)
        ensures
            r@.len() == CoinId::LEN,
            forall|i: int| 0 <= i < r@.len() ==> r@[i] == 0u8,
    {
        Self { tx_id: TxId::zeroed(), output_index: 0 }
    }

    /// The memory size of the type by the method.
    pub fn size(&self) -> (r: usize)
        ensures
            r == CoinId::LEN,
            r == self@.len(),
    {
        Self::LEN
    }

    /// Returns transaction id of the coin.
    pub fn tx_id(&self) -> (r: &TxId)
        ensures
            r@ == self@.take(TxId::LEN as int),
    {
        proof {
            assert(self.tx_id@ =~= self@.take(TxId::LEN as int));
        }
        &self.tx_id
    }

    /// Returns the output index in the transaction of the coin.
    pub fn output_index(&self) -> (r: u8)
        ensures
            r == self@[CoinId::LEN - 1],
    {
        self.output_index
    }

    /// Bounds-checked view constructor from an arbitrary slice: `Some`
    /// exactly when the slice has the length of the type.
    pub fn try_from_slice(bytes: &[u8]) -> (r: Option<CoinId>)
        ensures
            r is Some <==> bytes@.len() == CoinId::LEN,
            r is Some ==> r->0@ == bytes@,
    {
        if bytes.len() != Self::LEN {
            return None;
        }
        let mut owned: [u8; 33] = [0; 33];
        let mut i: usize = 0;
        while i < 33
            invariant
                0 <= i <= 33,
                bytes@.len() == 33,
                owned@.len() == 33,
                forall|j: int| 0 <= j < i ==> owned@[j] == bytes@[j],
            decreases 33 - i,
        {
            owned[i] = bytes[i];
            i += 1;
        }
        proof {
            assert(owned@ =~= bytes@);
        }
        Some(Self::new(owned))
    }

    /// Replaces transaction id.
    pub fn replace_tx_id(&mut self, tx_id: TxId)
        ensures
            final(self)@ == tx_id@.push(old(self)@[CoinId::LEN - 1]),
    {
        self.tx_id = tx_id;
    }

    /// The bytes of the identifier, owned: the inverse of [`CoinId::new`].
    pub fn to_bytes(&self) -> (r: [u8; 33])
        ensures
            r@ == self@,
    {
        let mut out: [u8; 33] = [0; 33];
        let tx_id = self.tx_id.as_slice();
        let mut i: usize = 0;
        while i < 32
            invariant
                0 <= i <= 32,
                tx_id@.len() == 32,
                tx_id@ == self.tx_id@,
                out@.len() == 33,
                forall|j: int| 0 <= j < i ==> out@[j] == self.tx_id@[j],
            decreases 32 - i,
        {
            out[i] = tx_id[i];
            i += 1;
        }
        out[32] = self.output_index;
        proof {
            assert(out@ =~= self@);
        }
        out
    }
}

} // verus!
