//! The UTXO height index: a derived view mapping each confirmed wallet
//! transaction to its block height, and the consensus-filtered balance.

use crate::consensus::Wallet;
use crate::types::{TxId, TxInfo, Utxo};
use vstd::prelude::*;

verus! {

/// Looking a transaction id up among the index entries. When an id occurs
/// twice, the later entry wins, as collecting pairs into a map would have it.
pub open spec fn spec_lookup(entries: Seq<(TxId, u32)>, t: TxId) -> Option<u32>
    decreases entries.len(),
{
    if entries.len() == 0 {
        None
    } else if entries.last().0 == t {
        Some(entries.last().1)
    } else {
        spec_lookup(entries.drop_last(), t)
    }
}

/// The index entries derived from a transaction list: one `(txid, height)`
/// pair per confirmed transaction, in list order; mempool entries are left
/// out.
pub open spec fn spec_height_entries(txs: Seq<TxInfo>) -> Seq<(TxId, u32)>
    decreases txs.len(),
{
    if txs.len() == 0 {
        Seq::empty()
    } else {
        let rest = spec_height_entries(txs.drop_last());
        match txs.last().height {
            Some(h) => rest.push((txs.last().txid, h)),
            None => rest,
        }
    }
}

/// Maps each confirmed transaction touching the wallet to its block height.
/// Callers treat a missing id as "not yet final under consensus" and must
/// reject such outputs.
pub struct UtxoHeightIndex {
    pub entries: Vec<(TxId, u32)>,
}

impl UtxoHeightIndex {
    /// The height recorded for a transaction id, if any.
    pub open spec fn spec_height_of(&self, t: TxId) -> Option<u32> {
        spec_lookup(self.entries@, t)
    }

    /// Whether an unspent output may be spent under the given consensus
    /// height: its funding transaction is in the index, at that height or
    /// below.
    pub open spec fn spec_admissible(&self, u: Utxo, consensus_height: u32) -> bool {
        match spec_lookup(self.entries@, u.txid) {
            Some(h) => h <= consensus_height,
            None => false,
        }
    }

    /// Look a transaction id up.
    pub fn height_of(&self, t: &TxId) -> (r: Option<u32>)
        ensures
            r == self.spec_height_of(*t),
    {
        let mut found: Option<u32> = None;
        let mut i: usize = 0;
        proof {
            assert(self.entries@.take(0) =~= Seq::<(TxId, u32)>::empty());
        }
        while i < self.entries.len()
            invariant
                i <= self.entries@.len(),
                found == spec_lookup(self.entries@.take(i as int), *t),
            decreases self.entries@.len() - i,
        {
            let entry = self.entries[i];
            if entry.0 == *t {
                found = Some(entry.1);
            }
            proof {
                assert(self.entries@.take(i as int + 1).drop_last() =~= self.entries@.take(
                    i as int,
                ));
                assert(self.entries@.take(i as int + 1).last() == self.entries@[i as int]);
            }
            i += 1;
        }
        proof {
            assert(self.entries@.take(self.entries@.len() as int) =~= self.entries@);
        }
        found
    }

    /// Whether an unspent output may be spent under the given consensus
    /// height.
    pub fn admissible(&self, u: &Utxo, consensus_height: u32) -> (r: bool)
        ensures
            r == self.spec_admissible(*u, consensus_height),
    {
        match self.height_of(&u.txid) {
            Some(h) => h <= consensus_height,
            None => false,
        }
    }
}

/// The consensus-filtered balance: the summed value of the unspent outputs
/// whose funding transaction the index holds at or below the consensus
/// height. Outputs of unknown height contribute nothing.
pub open spec fn spec_balance(entries: Seq<(TxId, u32)>, utxos: Seq<Utxo>, height: u32) -> int
    decreases utxos.len(),
{
    if utxos.len() == 0 {
        0
    } else {
        let rest = spec_balance(entries, utxos.drop_last(), height);
        let keep = match spec_lookup(entries, utxos.last().txid) {
            Some(h) => h <= height,
            None => false,
        };
        if keep {
            rest + utxos.last().value
        } else {
            rest
        }
    }
}

/// A prefix of the unspent outputs never sums to more than all of them.
pub proof fn lemma_balance_prefix(entries: Seq<(TxId, u32)>, utxos: Seq<Utxo>, height: u32, i: int)
    requires
        0 <= i <= utxos.len(),
    ensures
        spec_balance(entries, utxos.take(i), height) <= spec_balance(entries, utxos, height),
    decreases utxos.len() - i,
{
    if i == utxos.len() {
        assert(utxos.take(i) =~= utxos);
    } else {
        lemma_balance_prefix(entries, utxos, height, i + 1);
        assert(utxos.take(i + 1).drop_last() =~= utxos.take(i));
        assert(utxos.take(i + 1).last() == utxos[i]);
    }
}

impl Wallet {
    /// Derive the height index afresh from the wallet's transaction list.
    pub fn height_map(&self, txs: &Vec<TxInfo>) -> (r: UtxoHeightIndex)
        ensures
            r.entries@ == spec_height_entries(txs@),
    {
        let mut entries: Vec<(TxId, u32)> = Vec::new();
        let mut i: usize = 0;
        proof {
            assert(entries@ =~= spec_height_entries(txs@.take(0)));
        }
        while i < txs.len()
            invariant
                i <= txs@.len(),
                entries@ == spec_height_entries(txs@.take(i as int)),
            decreases txs@.len() - i,
        {
            let tx = txs[i];
            match tx.height {
                Some(h) => entries.push((tx.txid, h)),
                None => (),
            }
            proof {
                assert(txs@.take(i as int + 1).drop_last() =~= txs@.take(i as int));
                assert(txs@.take(i as int + 1).last() == txs@[i as int]);
            }
            i += 1;
        }
        proof {
            assert(txs@.take(txs@.len() as int) =~= txs@);
        }
        UtxoHeightIndex { entries }
    }

    /// The spendable balance under the current consensus height, from the
    /// wallet's transaction list and unspent outputs.
    pub fn balance(&self, txs: &Vec<TxInfo>, utxos: &Vec<Utxo>) -> (r: u64)
        requires
            spec_balance(spec_height_entries(txs@), utxos@, self.consensus_height) <= u64::MAX,
        ensures
            r == spec_balance(spec_height_entries(txs@), utxos@, self.consensus_height),
    {
        let index = self.height_map(txs);
        let mut acc: u64 = 0;
        let mut i: usize = 0;
        let ghost entries = spec_height_entries(txs@);
        proof {
            assert(utxos@.take(0) =~= Seq::<Utxo>::empty());
        }
        while i < utxos.len()
            invariant
                i <= utxos@.len(),
                index.entries@ == entries,
                acc == spec_balance(entries, utxos@.take(i as int), self.consensus_height),
                spec_balance(entries, utxos@, self.consensus_height) <= u64::MAX,
            decreases utxos@.len() - i,
        {
            let u = utxos[i];
            proof {
                assert(utxos@.take(i as int + 1).drop_last() =~= utxos@.take(i as int));
                assert(utxos@.take(i as int + 1).last() == utxos@[i as int]);
                lemma_balance_prefix(entries, utxos@, self.consensus_height, i as int + 1);
            }
            if index.admissible(&u, self.consensus_height) {
                acc = acc + u.value;
            }
            i += 1;
        }
        proof {
            assert(utxos@.take(utxos@.len() as int) =~= utxos@);
        }
        acc
    }
}

} // verus!
