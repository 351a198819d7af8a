//! Identifiers of principals and records.

use vstd::prelude::*;

verus! {

/// An opaque identifier of a principal (a player) or of a persisted record.
///
/// Two identifiers denote the same principal exactly when their bytes agree.
#[derive(Clone, Copy, Debug, Eq)]
pub struct Pubkey(pub [u8; 32]);

impl View for Pubkey {
    type V = Seq<u8>;

    open spec fn view(&self) -> Seq<u8> {
        self.0@
    }
}

/// Byte-wise comparison of two 32-byte strings.
pub fn bytes32_equal(a: &[u8; 32], b: &[u8; 32]) -> (same: bool)
    ensures
        same == (a@ == b@),
{
    let mut i: usize = 0;
    while i < 32
        invariant
            i <= 32,
            forall|k: int| 0 <= k < i ==> a[k] == b[k],
        decreases 32 - i,
    {
        if a[i] != b[i] {
            return false;
        }
        i += 1;
    }
    assert(a@ =~= b@);
    true
}

impl PartialEq for Pubkey {
    fn eq(&self, other: &Pubkey) -> (same: bool) {
        bytes32_equal(&self.0, &other.0)
    }
}

impl vstd::std_specs::cmp::PartialEqSpecImpl for Pubkey {
    open spec fn obeys_eq_spec() -> bool {
        true
    }

    open spec fn eq_spec(&self, other: &Pubkey) -> bool {
        self@ == other@
    }
}

impl Pubkey {
    /// An identifier is determined by its bytes.
    pub proof fn lemma_view_injective(self, other: Pubkey)
        ensures
            self@.len() == 32,
            (self@ == other@) <==> (self == other),
    {
        if self@ == other@ {
            assert(self.0@ == other.0@);
            assert(self.0 =~= other.0);
        }
    }
}

} // verus!
