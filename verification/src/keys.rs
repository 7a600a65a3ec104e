use vstd::prelude::*;

verus! {

/// A 32-byte account address.
#[derive(Clone, Copy, Debug, PartialEq, Eq)]
pub struct Pubkey {
    pub bytes: [u8; 32],
}

impl View for Pubkey {
    type V = Seq<u8>;

    open spec fn view(&self) -> Seq<u8> {
        self.bytes@
    }
}

/// The address `3x9USDofKPb6rREu2dWe9rcvT4QMHQS1PrJ13WuZ1QL3`, which the
/// program stores in a referral slot to mean "no referral".
pub open spec fn spec_no_referral() -> Seq<u8> {
    seq![
        43u8, 215u8, 230u8, 25u8, 15u8, 11u8, 194u8, 229u8, 9u8, 95u8, 200u8, 131u8, 184u8, 36u8,
        163u8, 159u8, 217u8, 115u8, 67u8, 116u8, 90u8, 159u8, 108u8, 37u8, 47u8, 8u8, 251u8, 48u8,
        183u8, 99u8, 177u8, 76u8,
    ]
}

/// The all-zero address.
pub open spec fn spec_zero_key() -> Seq<u8> {
    Seq::new(32, |i: int| 0u8)
}

/// The referral placeholder `3x9USDofKPb6rREu2dWe9rcvT4QMHQS1PrJ13WuZ1QL3`.
pub fn no_referral() -> (k: Pubkey)
    ensures
        k@ == spec_no_referral(),
{
    let k = Pubkey {
        bytes: [
            43, 215, 230, 25, 15, 11, 194, 229, 9, 95, 200, 131, 184, 36, 163, 159, 217, 115, 67,
            116, 90, 159, 108, 37, 47, 8, 251, 48, 183, 99, 177, 76,
        ],
    };
    assert(k@ =~= spec_no_referral());
    k
}

impl Pubkey {
    /// Whether two addresses are the same 32 bytes.
    pub fn same(&self, other: &Pubkey) -> (b: bool)
        ensures
            b == (self@ == other@),
    {
        let mut i: usize = 0;
        while i < 32
            invariant
                i <= 32,
                self@.len() == 32,
                other@.len() == 32,
                forall|j: int| 0 <= j < i ==> self@[j] == other@[j],
            decreases 32 - i,
        {
            if self.bytes[i] != other.bytes[i] {
                return false;
            }
            i = i + 1;
        }
        assert(self@ =~= other@);
        true
    }
}

impl Default for Pubkey {
    /// The all-zero address.
    fn default() -> (k: Pubkey)
        ensures
            k@ == spec_zero_key(),
    {
        let k = Pubkey { bytes: [0u8; 32] };
        assert(k@ =~= spec_zero_key());
        k
    }
}

} // verus!
