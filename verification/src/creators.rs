//! The creator list attached to every mint.

use vstd::prelude::*;
use solana_program::pubkey::Pubkey;
use mpl_token_metadata::types::Creator;

verus! {

/// The creator list this planner attaches to every mint: the collection key
/// with the whole royalty share, then the mint authority with none; neither
/// entry is marked verified.
pub open spec fn creators_for(collection: Pubkey, authority: Pubkey) -> Seq<Creator> {
    seq![
        Creator { address: collection, verified: false, share: 100u8 },
        Creator { address: authority, verified: false, share: 0u8 },
    ]
}

/// Sum of the royalty shares of a creator list.
pub open spec fn total_share(s: Seq<Creator>) -> int
    decreases s.len(),
{
    if s.len() == 0 {
        0
    } else {
        total_share(s.drop_last()) + s.last().share
    }
}

/// The shares of the planned creator list cover the full hundred percent,
/// whatever the two keys are, as the metadata program demands of every
/// creator list it stores.
pub proof fn lemma_creators_share_total(collection: Pubkey, authority: Pubkey)
    ensures
        total_share(creators_for(collection, authority)) == 100,
{
    let s = creators_for(collection, authority);
    let first = s.drop_last();
    assert(first =~= seq![Creator { address: collection, verified: false, share: 100u8 }]);
    assert(first.drop_last() =~= Seq::<Creator>::empty());
    assert(total_share(first.drop_last()) == 0);
    assert(total_share(first) == 100);
}

/// Builds the creator list for one mint.
pub fn nft_creators(collection: Pubkey, authority: Pubkey) -> (v: Vec<Creator>)
    ensures
        v@ == creators_for(collection, authority),
{
    let mut v: Vec<Creator> = Vec::new();
    v.push(Creator { address: collection, verified: false, share: 100 });
    v.push(Creator { address: authority, verified: false, share: 0 });
    proof {
        assert(v@ =~= creators_for(collection, authority));
    }
    v
}

} // verus!
