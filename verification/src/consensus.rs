//! Consensus aggregation: peers propose `(height, fee rate)` pairs each
//! round; the aggregator folds them into monotone consensus values.

use crate::sorting::{
    le_of, lemma_median_is_element, lemma_median_of_sorted, median_upper, sort_vec, SortOrder,
};
use vstd::prelude::*;
use vstd::relations::sorted_by;

verus! {

/// Confirmation target, in blocks, used when asking the blockchain client
/// for a fee estimate for an own proposal.
pub const CONFIRMATION_TARGET: usize = 24;

/// A per-round proposal by one federation member: the chain height it wants
/// consensus to advance to, and a fee rate in millisats per virtual byte.
/// A `fee_rate` of zero encodes an invalid rate and is filtered out.
#[derive(Clone, Copy, Debug, PartialEq, Eq, Structural)]
pub struct WalletConsensus {
    pub block_height: u32,
    pub fee_rate: u64,
}

/// The fee rates that survive sanity checking: only positive rates are kept,
/// in their original order.
pub open spec fn positive_rates(s: Seq<u64>) -> Seq<u64>
    decreases s.len(),
{
    if s.len() == 0 {
        Seq::empty()
    } else {
        let rest = positive_rates(s.drop_last());
        if s.last() > 0 {
            rest.push(s.last())
        } else {
            rest
        }
    }
}

/// What one aggregation round does to the consensus height: the upper median
/// of the proposals is committed only if it does not rewind the height.
pub open spec fn round_height(current: u32, heights: Seq<u32>) -> u32 {
    if heights.len() == 0 {
        current
    } else if median_upper(heights) >= current {
        median_upper(heights)
    } else {
        current
    }
}

/// What one aggregation round does to the consensus fee rate: the upper
/// median of the positive proposals, or the old value if none survive.
pub open spec fn round_feerate(current: u64, rates: Seq<u64>) -> u64 {
    let kept = positive_rates(rates);
    if kept.len() == 0 {
        current
    } else {
        median_upper(kept)
    }
}

/// The height an own proposal carries: the observed tip minus the finality
/// delay, ratcheted so it never falls below the last proposal.
pub open spec fn proposal_height(last: u32, network_height: u32, finality_delay: u32) -> u32 {
    let target: u32 = if network_height >= finality_delay {
        (network_height - finality_delay) as u32
    } else {
        0u32
    };
    if target >= last {
        target
    } else {
        last
    }
}

/// The consensus-facing state of the federation wallet. The blockchain
/// client, store and signing key live outside; this is the part every honest
/// member must agree on.
pub struct Wallet {
    pub consensus_height: u32,
    pub finality_delay: u32,
    pub last_proposal: u32,
    pub consensus_feerate: u64,
}

impl Wallet {
    /// A fresh wallet: no consensus height or fee rate agreed yet.
    pub fn new(finality_delay: u32) -> (w: Wallet)
        ensures
            w.consensus_height == 0,
            w.last_proposal == 0,
            w.consensus_feerate == 0,
            w.finality_delay == finality_delay,
    {
        Wallet { consensus_height: 0, finality_delay, last_proposal: 0, consensus_feerate: 0 }
    }

    /// Build this member's own proposal from the observed network height and
    /// the fee estimate the blockchain client returned. The proposed height
    /// ratchets forward only, and `last_proposal` records it.
    pub fn consensus_proposal(&mut self, network_height: u32, fee_rate: u64) -> (p:
        WalletConsensus)
        ensures
            p.block_height == proposal_height(
                old(self).last_proposal,
                network_height,
                old(self).finality_delay,
            ),
            p.fee_rate == fee_rate,
            final(self).last_proposal == p.block_height,
            final(self).last_proposal >= old(self).last_proposal,
            final(self).consensus_height == old(self).consensus_height,
            final(self).consensus_feerate == old(self).consensus_feerate,
            final(self).finality_delay == old(self).finality_delay,
    {
        let target: u32 = if network_height >= self.finality_delay {
            network_height - self.finality_delay
        } else {
            0
        };
        let proposed: u32 = if target >= self.last_proposal {
            target
        } else {
            self.last_proposal
        };
        self.last_proposal = proposed;
        WalletConsensus { block_height: proposed, fee_rate }
    }

    /// Process one round of peer proposals. An empty batch mutates nothing;
    /// otherwise heights and fee rates are aggregated independently.
    pub fn process_consensus_proposals(&mut self, proposals: Vec<WalletConsensus>)
        ensures
            final(self).consensus_height == round_height(
                old(self).consensus_height,
                proposals@.map_values(|wc: WalletConsensus| wc.block_height),
            ),
            final(self).consensus_feerate == round_feerate(
                old(self).consensus_feerate,
                proposals@.map_values(|wc: WalletConsensus| wc.fee_rate),
            ),
            final(self).last_proposal == old(self).last_proposal,
            final(self).finality_delay == old(self).finality_delay,
    {
        let ghost hs = proposals@.map_values(|wc: WalletConsensus| wc.block_height);
        let ghost fs = proposals@.map_values(|wc: WalletConsensus| wc.fee_rate);
        if proposals.len() == 0 {
            return ;
        }
        let mut heights: Vec<u32> = Vec::new();
        let mut fees: Vec<u64> = Vec::new();
        let mut i: usize = 0;
        proof {
            assert(heights@ =~= hs.take(0));
            assert(fees@ =~= fs.take(0));
        }
        while i < proposals.len()
            invariant
                i <= proposals@.len(),
                hs == proposals@.map_values(|wc: WalletConsensus| wc.block_height),
                fs == proposals@.map_values(|wc: WalletConsensus| wc.fee_rate),
                heights@ == hs.take(i as int),
                fees@ == fs.take(i as int),
            decreases proposals@.len() - i,
        {
            let wc = proposals[i];
            heights.push(wc.block_height);
            fees.push(wc.fee_rate);
            proof {
                assert(hs.take(i as int + 1) =~= hs.take(i as int).push(hs[i as int]));
                assert(fs.take(i as int + 1) =~= fs.take(i as int).push(fs[i as int]));
            }
            i += 1;
        }
        proof {
            assert(hs.take(proposals@.len() as int) =~= hs);
            assert(fs.take(proposals@.len() as int) =~= fs);
        }
        self.process_block_height_proposals(heights);
        self.process_fee_proposals(fees);
    }

    /// Height aggregation for one non-empty round: commit the upper median
    /// of the proposals unless it would rewind the consensus height.
    fn process_block_height_proposals(&mut self, proposals: Vec<u32>)
        requires
            proposals@.len() > 0,
        ensures
            final(self).consensus_height == round_height(old(self).consensus_height, proposals@),
            final(self).consensus_feerate == old(self).consensus_feerate,
            final(self).last_proposal == old(self).last_proposal,
            final(self).finality_delay == old(self).finality_delay,
    {
        let sorted = sort_vec(&proposals);
        let median = sorted[sorted.len() / 2];
        proof {
            assert(median == median_upper(proposals@));
        }
        if median >= self.consensus_height {
            self.consensus_height = median;
        }
    }

    /// Fee aggregation for one non-empty round: discard non-positive rates,
    /// and commit the upper median of the survivors, if any.
    fn process_fee_proposals(&mut self, proposals: Vec<u64>)
        requires
            proposals@.len() > 0,
        ensures
            final(self).consensus_feerate == round_feerate(
                old(self).consensus_feerate,
                proposals@,
            ),
            final(self).consensus_height == old(self).consensus_height,
            final(self).last_proposal == old(self).last_proposal,
            final(self).finality_delay == old(self).finality_delay,
    {
        let mut kept: Vec<u64> = Vec::new();
        let mut i: usize = 0;
        proof {
            assert(kept@ =~= positive_rates(proposals@.take(0)));
        }
        while i < proposals.len()
            invariant
                i <= proposals@.len(),
                kept@ == positive_rates(proposals@.take(i as int)),
            decreases proposals@.len() - i,
        {
            let rate = proposals[i];
            if rate > 0 {
                kept.push(rate);
            }
            proof {
                assert(proposals@.take(i as int + 1).drop_last() =~= proposals@.take(i as int));
                assert(proposals@.take(i as int + 1).last() == proposals@[i as int]);
            }
            i += 1;
        }
        proof {
            assert(proposals@.take(proposals@.len() as int) =~= proposals@);
        }
        if kept.len() == 0 {
            return ;
        }
        let sorted = sort_vec(&kept);
        let median = sorted[sorted.len() / 2];
        proof {
            assert(median == median_upper(kept@));
        }
        self.consensus_feerate = median;
    }
}

/// Height monotonicity: no aggregation round ever lowers the consensus
/// height, so over any sequence of rounds it is non-decreasing.
pub proof fn lemma_round_height_monotone(current: u32, heights: Seq<u32>)
    ensures
        round_height(current, heights) >= current,
{
}

/// A whole run of aggregation rounds, height-wise: `round_height` folded
/// over the per-round height batches, in order.
pub open spec fn spec_run_height_rounds(current: u32, rounds: Seq<Seq<u32>>) -> u32
    decreases rounds.len(),
{
    if rounds.len() == 0 {
        current
    } else {
        spec_run_height_rounds(round_height(current, rounds.first()), rounds.drop_first())
    }
}

/// Height monotonicity over any sequence of aggregation rounds: the
/// consensus height after a run never falls below where it started.
pub proof fn lemma_run_height_monotone(current: u32, rounds: Seq<Seq<u32>>)
    ensures
        spec_run_height_rounds(current, rounds) >= current,
    decreases rounds.len(),
{
    if rounds.len() == 0 {
    } else {
        lemma_round_height_monotone(current, rounds.first());
        lemma_run_height_monotone(round_height(current, rounds.first()), rounds.drop_first());
    }
}

/// Proposal monotonicity: an own proposal never aims below the previous one,
/// so `last_proposal` is non-decreasing over any sequence of proposals.
pub proof fn lemma_proposal_height_monotone(last: u32, network_height: u32, finality_delay: u32)
    ensures
        proposal_height(last, network_height, finality_delay) >= last,
{
}

/// Every fee rate that survives sanity checking is positive.
pub proof fn lemma_positive_rates_all_positive(s: Seq<u64>)
    ensures
        forall|j: int| 0 <= j < positive_rates(s).len() ==> positive_rates(s)[j] > 0,
    decreases s.len(),
{
    if s.len() == 0 {
    } else {
        lemma_positive_rates_all_positive(s.drop_last());
        let rest = positive_rates(s.drop_last());
        if s.last() > 0 {
            assert(positive_rates(s) == rest.push(s.last()));
            assert forall|j: int| 0 <= j < positive_rates(s).len() implies positive_rates(s)[j]
                > 0 by {
                if j < rest.len() {
                    assert(rest[j] > 0);
                }
            }
        } else {
            assert(positive_rates(s) == rest);
        }
    }
}

/// Fee sanity: a round in which any positive rate survives the filter
/// commits a positive consensus fee rate.
pub proof fn lemma_round_feerate_positive(current: u64, rates: Seq<u64>)
    requires
        positive_rates(rates).len() > 0,
    ensures
        round_feerate(current, rates) > 0,
{
    let kept = positive_rates(rates);
    lemma_median_is_element::<u64>(kept);
    lemma_positive_rates_all_positive(rates);
    assert(kept.contains(median_upper(kept)));
    let j = choose|j: int| 0 <= j < kept.len() && kept[j] == median_upper(kept);
    assert(kept[j] > 0);
}

/// Filtering keeps a sequence of positive rates unchanged.
pub proof fn lemma_positive_rates_identity(s: Seq<u64>)
    requires
        forall|j: int| 0 <= j < s.len() ==> s[j] > 0,
    ensures
        positive_rates(s) == s,
    decreases s.len(),
{
    if s.len() == 0 {
        assert(positive_rates(s) =~= s);
    } else {
        lemma_positive_rates_identity(s.drop_last());
        assert(positive_rates(s) =~= s);
    }
}

/// Median correctness at the round level: for a non-empty sorted batch of
/// positive fee rates, the committed consensus fee rate is the element at
/// index `⌊n/2⌋` — the middle element for odd `n`, the upper median for
/// even `n`.
pub proof fn lemma_round_feerate_median(current: u64, rates: Seq<u64>)
    requires
        rates.len() > 0,
        sorted_by(rates, le_of::<u64>()),
        forall|j: int| 0 <= j < rates.len() ==> rates[j] > 0,
    ensures
        round_feerate(current, rates) == rates[rates.len() as int / 2],
{
    lemma_positive_rates_identity(rates);
    lemma_median_of_sorted(rates);
}

} // verus!
