//! Preloading: the kitties that exist before the first request.

use crate::model::{mint_refusal, State};
use crate::pallet::Pallet;
use crate::types::{AccountId, Gender};
use vstd::prelude::*;

verus! {

/// The kitties to mint when the pallet is set up: for each its owner, its
/// attributes and its gender.
pub struct GenesisConfig {
    pub kitties: Vec<(AccountId, [u8; 16], Gender)>,
}

/// The state after the entries were minted in order. An entry that cannot be
/// minted is passed over.
pub open spec fn preloaded(s: State, entries: Seq<(AccountId, [u8; 16], Gender)>) -> State
    decreases entries.len(),
{
    if entries.len() == 0 {
        s
    } else {
        let before = preloaded(s, entries.drop_last());
        let entry = entries.last();
        if mint_refusal(before, entry.0) is None {
            before.minted(entry.0, entry.1@, entry.2)
        } else {
            before
        }
    }
}

impl Default for GenesisConfig {
    /// The configuration that preloads nothing.
    fn default() -> (config: GenesisConfig)
        ensures
            config.kitties@.len() == 0,
    {
        GenesisConfig { kitties: Vec::new() }
    }
}

impl GenesisConfig {
    /// Mints the configured kitties into `pallet`, in order.
    pub fn build(&self, pallet: &mut Pallet)
        requires
            old(pallet).wf(),
        ensures
            final(pallet).wf(),
            final(pallet)@ == preloaded(old(pallet)@, self.kitties@),
    {
        let mut k: usize = 0;
        while k < self.kitties.len()
            invariant
                k <= self.kitties.len(),
                pallet.wf(),
                pallet@ == preloaded(old(pallet)@, self.kitties@.take(k as int)),
            decreases self.kitties.len() - k,
        {
            let (owner, dna, gender) = self.kitties[k];
            let _ = pallet.mint(owner, dna, gender);
            proof {
                assert(self.kitties@.take(k + 1).drop_last() =~= self.kitties@.take(k as int));
            }
            k = k + 1;
        }
        assert(self.kitties@.take(k as int) =~= self.kitties@);
    }
}

} // verus!
