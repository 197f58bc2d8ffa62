//! Coin selection: a capability interface for selectors, a deterministic
//! prefix selector, and the decorator that filters candidates by the agreed
//! consensus height before delegating.

use crate::consensus::Wallet;
use crate::index::{spec_height_entries, spec_lookup, UtxoHeightIndex};
use crate::types::{TxId, TxInfo, Utxo, WalletError};
use vstd::arithmetic::mul::lemma_mul_inequality;
use vstd::prelude::*;

verus! {

/// What a selector returns: the chosen outputs and the fee amount it
/// accounted for.
#[derive(Clone, Debug)]
pub struct CoinSelectionResult {
    pub selected: Vec<Utxo>,
    pub fee_amount: u64,
}

/// Summed value, in sats, of a sequence of unspent outputs.
pub open spec fn sum_values(s: Seq<Utxo>) -> int
    decreases s.len(),
{
    if s.len() == 0 {
        0
    } else {
        sum_values(s.drop_last()) + s.last().value
    }
}

/// The deterministic selection: walk the candidates in order, keeping each
/// one until the kept values cover the target; `None` when even all of them
/// do not.
pub open spec fn spec_select_prefix(candidates: Seq<Utxo>, target: int) -> Option<Seq<Utxo>>
    decreases candidates.len(),
{
    if target <= 0 {
        Some(Seq::empty())
    } else if candidates.len() == 0 {
        None
    } else {
        match spec_select_prefix(
            candidates.drop_first(),
            target - candidates.first().value,
        ) {
            Some(rest) => Some(Seq::empty().push(candidates.first()) + rest),
            None => None,
        }
    }
}

/// The candidates that survive the consensus-height filter, in their
/// original order: only outputs whose funding transaction the index holds
/// at or below the consensus height.
pub open spec fn spec_admissible_filter(
    entries: Seq<(TxId, u32)>,
    utxos: Seq<Utxo>,
    height: u32,
) -> Seq<Utxo>
    decreases utxos.len(),
{
    if utxos.len() == 0 {
        Seq::empty()
    } else {
        let rest = spec_admissible_filter(entries, utxos.drop_last(), height);
        let keep = match spec_lookup(entries, utxos.last().txid) {
            Some(h) => h <= height,
            None => false,
        };
        if keep {
            rest.push(utxos.last())
        } else {
            rest
        }
    }
}

/// Coin-selector admissibility: no output of unknown height, and none above
/// the consensus height, survives the filter that feeds the inner selector.
pub proof fn lemma_admissible_filter_sound(entries: Seq<(TxId, u32)>, utxos: Seq<Utxo>, height: u32)
    ensures
        forall|j: int|
            0 <= j < spec_admissible_filter(entries, utxos, height).len()
                ==> match spec_lookup(
                entries,
                (#[trigger] spec_admissible_filter(entries, utxos, height)[j]).txid,
            ) {
                Some(h) => h <= height,
                None => false,
            },
    decreases utxos.len(),
{
    if utxos.len() == 0 {
    } else {
        lemma_admissible_filter_sound(entries, utxos.drop_last(), height);
        let rest = spec_admissible_filter(entries, utxos.drop_last(), height);
        let whole = spec_admissible_filter(entries, utxos, height);
        assert forall|j: int| 0 <= j < whole.len() implies match spec_lookup(
            entries,
            (#[trigger] whole[j]).txid,
        ) {
            Some(h) => h <= height,
            None => false,
        } by {
            if j < rest.len() {
                assert(match spec_lookup(entries, rest[j].txid) {
                    Some(h) => h <= height,
                    None => false,
                });
            }
        }
    }
}

/// A selector chooses outputs covering an amount plus fees. `spec_select`
/// is the selection as a pure function of the candidates and amounts, so
/// that every implementation is deterministic by construction; `coin_select`
/// must return exactly it. The required set must be empty: withdrawals do
/// not pin specific inputs.
pub trait CoinSelector: Sized {
    spec fn spec_select(
        &self,
        optional: Seq<Utxo>,
        fee_rate: u64,
        amount_needed: u64,
        fee_amount: u64,
    ) -> Option<Seq<Utxo>>;

    fn coin_select(
        &self,
        required: &Vec<Utxo>,
        optional: Vec<Utxo>,
        fee_rate: u64,
        amount_needed: u64,
        fee_amount: u64,
    ) -> (r: Result<CoinSelectionResult, WalletError>)
        ensures
            match r {
                Ok(res) => required@.len() == 0 && Some(res.selected@) == self.spec_select(
                    optional@,
                    fee_rate,
                    amount_needed,
                    fee_amount,
                ) && res.fee_amount == fee_amount,
                Err(WalletError::RequiredUtxosNotEmpty) => required@.len() > 0,
                Err(WalletError::InsufficientFunds) => required@.len() == 0 && self.spec_select(
                    optional@,
                    fee_rate,
                    amount_needed,
                    fee_amount,
                ) is None,
                Err(_) => false,
            },
    ;
}

/// Sum the values of a vector of outputs without overflow.
pub fn sum_utxos(v: &Vec<Utxo>) -> (r: u128)
    ensures
        r == sum_values(v@),
{
    let mut acc: u128 = 0;
    let mut i: usize = 0;
    proof {
        assert(v@.take(0) =~= Seq::<Utxo>::empty());
    }
    while i < v.len()
        invariant
            i <= v@.len(),
            acc == sum_values(v@.take(i as int)),
            acc <= i * (u64::MAX as int),
        decreases v@.len() - i,
    {
        proof {
            assert(v@.take(i as int + 1).drop_last() =~= v@.take(i as int));
            assert(v@.take(i as int + 1).last() == v@[i as int]);
            lemma_mul_inequality(i as int + 1, usize::MAX as int, u64::MAX as int);
        }
        acc = acc + (v[i].value as u128);
        i += 1;
    }
    proof {
        assert(v@.take(v@.len() as int) =~= v@);
    }
    acc
}

/// The deterministic selector that replaces an exploratory branch-and-bound:
/// it keeps candidates in their given order until the target is covered, so
/// identical candidate lists yield identical selections on every member.
pub struct GreedyCoinSelection;

impl CoinSelector for GreedyCoinSelection {
    open spec fn spec_select(
        &self,
        optional: Seq<Utxo>,
        fee_rate: u64,
        amount_needed: u64,
        fee_amount: u64,
    ) -> Option<Seq<Utxo>> {
        spec_select_prefix(optional, amount_needed + fee_amount)
    }

    fn coin_select(
        &self,
        required: &Vec<Utxo>,
        optional: Vec<Utxo>,
        fee_rate: u64,
        amount_needed: u64,
        fee_amount: u64,
    ) -> (r: Result<CoinSelectionResult, WalletError>) {
        if required.len() > 0 {
            return Err(WalletError::RequiredUtxosNotEmpty);
        }
        let target: u128 = (amount_needed as u128) + (fee_amount as u128);
        let ghost t = amount_needed + fee_amount;
        let mut selected: Vec<Utxo> = Vec::new();
        let mut acc: u128 = 0;
        let mut i: usize = 0;
        proof {
            assert(optional@.skip(0) =~= optional@);
            assert(optional@.take(0) =~= Seq::<Utxo>::empty());
            if spec_select_prefix(optional@, t as int) is Some {
                let rest = spec_select_prefix(optional@, t as int).unwrap();
                assert(Seq::<Utxo>::empty() + rest =~= rest);
            }
        }
        while i < optional.len() && acc < target
            invariant
                i <= optional@.len(),
                selected@ == optional@.take(i as int),
                acc == sum_values(optional@.take(i as int)),
                acc <= i * (u64::MAX as int),
                target == t,
                acc < target ==> spec_select_prefix(optional@, t as int) == (match spec_select_prefix(
                    optional@.skip(i as int),
                    t - acc,
                ) {
                    Some(rest) => Some(selected@ + rest),
                    None => None::<Seq<Utxo>>,
                }),
                acc >= target ==> spec_select_prefix(optional@, t as int) == Some(selected@),
            decreases optional@.len() - i,
        {
            let u = optional[i];
            proof {
                assert(optional@.take(i as int + 1).drop_last() =~= optional@.take(i as int));
                assert(optional@.take(i as int + 1).last() == optional@[i as int]);
                lemma_mul_inequality(i as int + 1, usize::MAX as int, u64::MAX as int);
                let tail = optional@.skip(i as int);
                assert(tail.first() == optional@[i as int]);
                assert(tail.drop_first() =~= optional@.skip(i as int + 1));
                let rem = t - acc;
                assert(rem > 0);
                match spec_select_prefix(optional@.skip(i as int + 1), rem - u.value) {
                    Some(rest) => {
                        assert(selected@ + (Seq::<Utxo>::empty().push(u) + rest) =~= selected@.push(
                            u,
                        ) + rest);
                        if rem - u.value <= 0 {
                            assert(rest =~= Seq::<Utxo>::empty());
                            assert(selected@.push(u) + rest =~= selected@.push(u));
                        }
                    },
                    None => {},
                }
            }
            selected.push(u);
            acc = acc + (u.value as u128);
            i += 1;
        }
        proof {
            if acc < target {
                assert(i == optional@.len());
                assert(optional@.skip(i as int) =~= Seq::<Utxo>::empty());
            }
        }
        if acc < target {
            return Err(WalletError::InsufficientFunds);
        }
        Ok(CoinSelectionResult { selected, fee_amount })
    }
}

/// The decorator: filters the optional candidates by the consensus height,
/// then delegates to the inner selector, so that every honest member's
/// selector sees an identical candidate set.
pub struct ConsensusHeightCoinSelector<S> {
    pub height_map: UtxoHeightIndex,
    pub consensus_height: u32,
    pub inner_selector: S,
}

impl<S: CoinSelector> CoinSelector for ConsensusHeightCoinSelector<S> {
    open spec fn spec_select(
        &self,
        optional: Seq<Utxo>,
        fee_rate: u64,
        amount_needed: u64,
        fee_amount: u64,
    ) -> Option<Seq<Utxo>> {
        self.inner_selector.spec_select(
            spec_admissible_filter(self.height_map.entries@, optional, self.consensus_height),
            fee_rate,
            amount_needed,
            fee_amount,
        )
    }

    fn coin_select(
        &self,
        required: &Vec<Utxo>,
        optional: Vec<Utxo>,
        fee_rate: u64,
        amount_needed: u64,
        fee_amount: u64,
    ) -> (r: Result<CoinSelectionResult, WalletError>) {
        if required.len() > 0 {
            return Err(WalletError::RequiredUtxosNotEmpty);
        }
        let mut filtered: Vec<Utxo> = Vec::new();
        let mut i: usize = 0;
        proof {
            assert(filtered@ =~= spec_admissible_filter(
                self.height_map.entries@,
                optional@.take(0),
                self.consensus_height,
            ));
        }
        while i < optional.len()
            invariant
                i <= optional@.len(),
                filtered@ == spec_admissible_filter(
                    self.height_map.entries@,
                    optional@.take(i as int),
                    self.consensus_height,
                ),
            decreases optional@.len() - i,
        {
            let u = optional[i];
            if self.height_map.admissible(&u, self.consensus_height) {
                filtered.push(u);
            }
            proof {
                assert(optional@.take(i as int + 1).drop_last() =~= optional@.take(i as int));
                assert(optional@.take(i as int + 1).last() == optional@[i as int]);
            }
            i += 1;
        }
        proof {
            assert(optional@.take(optional@.len() as int) =~= optional@);
        }
        self.inner_selector.coin_select(required, filtered, fee_rate, amount_needed, fee_amount)
    }
}

impl Wallet {
    /// Wrap a concrete selector in the consensus-height decorator, with the
    /// height index snapshot taken now.
    pub fn coin_selection<S: CoinSelector>(&self, txs: &Vec<TxInfo>, selector: S) -> (r:
        ConsensusHeightCoinSelector<S>)
        ensures
            r.height_map.entries@ == spec_height_entries(txs@),
            r.consensus_height == self.consensus_height,
            r.inner_selector == selector,
    {
        ConsensusHeightCoinSelector {
            height_map: self.height_map(txs),
            consensus_height: self.consensus_height,
            inner_selector: selector,
        }
    }
}

} // verus!
