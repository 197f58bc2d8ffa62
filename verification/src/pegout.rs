//! Deterministic peg-out planning: fee budgeting, selection through the
//! consensus-height decorator, lexicographic input and output ordering, and
//! the exact-send guarantee.

use crate::consensus::Wallet;
use crate::index::spec_height_entries;
use crate::select::{
    spec_admissible_filter, spec_select_prefix, sum_utxos, sum_values, CoinSelector,
    ConsensusHeightCoinSelector, GreedyCoinSelection,
};
use crate::sorting::{le_of, sort_vec, SortOrder};
use crate::types::{TxId, TxInfo, TxOut, Utxo, WalletError};
use vstd::arithmetic::div_mod::lemma_div_is_ordered;
use vstd::arithmetic::mul::lemma_mul_inequality;
use vstd::prelude::*;

verus! {

/// Virtual size charged for a transaction shell.
pub const BASE_TX_VBYTES: u64 = 11;

/// Virtual size charged per planned output.
pub const OUTPUT_VBYTES: u64 = 31;

/// Lexicographic input order: by funding transaction id byte-wise, then by
/// output index, then by value. Byte-wise id order is what deterministic
/// input ordering sorts by.
impl SortOrder for Utxo {
    open spec fn ord_le(self, other: Self) -> bool {
        if self.txid.w0 != other.txid.w0 {
            self.txid.w0 < other.txid.w0
        } else if self.txid.w1 != other.txid.w1 {
            self.txid.w1 < other.txid.w1
        } else if self.txid.w2 != other.txid.w2 {
            self.txid.w2 < other.txid.w2
        } else if self.txid.w3 != other.txid.w3 {
            self.txid.w3 < other.txid.w3
        } else if self.vout != other.vout {
            self.vout < other.vout
        } else {
            self.value <= other.value
        }
    }

    proof fn lemma_le_total(a: Self, b: Self, c: Self) {
    }

    fn le(&self, other: &Self) -> (r: bool) {
        if self.txid.w0 != other.txid.w0 {
            self.txid.w0 < other.txid.w0
        } else if self.txid.w1 != other.txid.w1 {
            self.txid.w1 < other.txid.w1
        } else if self.txid.w2 != other.txid.w2 {
            self.txid.w2 < other.txid.w2
        } else if self.txid.w3 != other.txid.w3 {
            self.txid.w3 < other.txid.w3
        } else if self.vout != other.vout {
            self.vout < other.vout
        } else {
            self.value <= other.value
        }
    }
}

/// Byte-wise lexicographic order on scripts, shorter prefixes first.
pub open spec fn bytes_le(a: Seq<u8>, b: Seq<u8>) -> bool
    decreases a.len(),
{
    if a.len() == 0 {
        true
    } else if b.len() == 0 {
        false
    } else if a.first() < b.first() {
        true
    } else if a.first() > b.first() {
        false
    } else {
        bytes_le(a.drop_first(), b.drop_first())
    }
}

/// Lexicographic output order: by value, then by script bytes.
pub open spec fn out_le(v1: int, s1: Seq<u8>, v2: int, s2: Seq<u8>) -> bool {
    v1 < v2 || (v1 == v2 && bytes_le(s1, s2))
}

/// Decide the byte-wise script order.
pub fn bytes_le_exec(a: &Vec<u8>, b: &Vec<u8>) -> (r: bool)
    ensures
        r == bytes_le(a@, b@),
{
    let mut i: usize = 0;
    proof {
        assert(a@.skip(0) =~= a@);
        assert(b@.skip(0) =~= b@);
    }
    while i < a.len() && i < b.len()
        invariant
            i <= a@.len(),
            i <= b@.len(),
            bytes_le(a@, b@) == bytes_le(a@.skip(i as int), b@.skip(i as int)),
        decreases a@.len() - i,
    {
        proof {
            assert(a@.skip(i as int).first() == a@[i as int]);
            assert(b@.skip(i as int).first() == b@[i as int]);
            assert(a@.skip(i as int).drop_first() =~= a@.skip(i as int + 1));
            assert(b@.skip(i as int).drop_first() =~= b@.skip(i as int + 1));
        }
        if a[i] < b[i] {
            return true;
        }
        if a[i] > b[i] {
            return false;
        }
        i += 1;
    }
    proof {
        if i == a@.len() {
            assert(a@.skip(i as int) =~= Seq::<u8>::empty());
        } else {
            assert(b@.skip(i as int) =~= Seq::<u8>::empty());
            assert(a@.skip(i as int).len() > 0);
        }
    }
    i >= a.len()
}

/// The fee budget of a peg-out: the consensus fee rate (millisats per
/// vbyte) applied to the shell plus two outputs, in sats.
pub open spec fn spec_fee_budget(fee_rate: u64) -> int {
    fee_rate * ((BASE_TX_VBYTES + 2 * OUTPUT_VBYTES) as int) / 1000
}

/// The inputs a peg-out selects, before ordering: the deterministic prefix
/// selection over the consensus-height-filtered candidates, targeting the
/// requested amount plus the fee budget.
pub open spec fn spec_pegout_selection(
    entries: Seq<(TxId, u32)>,
    height: u32,
    fee_rate: u64,
    utxos: Seq<Utxo>,
    amt: u64,
) -> Option<Seq<Utxo>> {
    spec_select_prefix(
        spec_admissible_filter(entries, utxos, height),
        amt + spec_fee_budget(fee_rate),
    )
}

/// Prepending one output adds its value to the sum.
pub proof fn lemma_sum_prepend(x: Utxo, s: Seq<Utxo>)
    ensures
        sum_values(Seq::empty().push(x) + s) == x.value + sum_values(s),
    decreases s.len(),
{
    let single = Seq::empty().push(x);
    if s.len() == 0 {
        assert(single + s =~= single);
        assert(single.drop_last() =~= Seq::<Utxo>::empty());
        assert(single.last() == x);
        assert(sum_values(Seq::<Utxo>::empty()) == 0);
        assert(sum_values(single) == x.value + 0);
    } else {
        lemma_sum_prepend(x, s.drop_last());
        let w = single + s;
        assert(w.drop_last() =~= single + s.drop_last());
        assert(w.last() == s.last());
        assert(sum_values(w) == sum_values(w.drop_last()) + s.last().value);
        assert(sum_values(w.drop_last()) == x.value + sum_values(s.drop_last()));
        assert(sum_values(s) == sum_values(s.drop_last()) + s.last().value);
    }
}

/// What the prefix selection guarantees about sums: a successful selection
/// covers the target, was not covered before its last element, and a failed
/// one means even all candidates fall short.
pub proof fn lemma_select_prefix_sum(c: Seq<Utxo>, target: int)
    ensures
        match spec_select_prefix(c, target) {
            Some(s) => sum_values(s) >= target && (s.len() == 0 ==> target <= 0) && (s.len() > 0
                ==> sum_values(s) - s.last().value < target),
            None => sum_values(c) < target,
        },
    decreases c.len(),
{
    if target <= 0 {
    } else if c.len() == 0 {
    } else {
        lemma_select_prefix_sum(c.drop_first(), target - c.first().value);
        match spec_select_prefix(c.drop_first(), target - c.first().value) {
            Some(rest) => {
                let s = Seq::empty().push(c.first()) + rest;
                lemma_sum_prepend(c.first(), rest);
                if rest.len() == 0 {
                    assert(s =~= Seq::<Utxo>::empty().push(c.first()));
                    assert(s.last() == c.first());
                    assert(s.drop_last() =~= Seq::<Utxo>::empty());
                } else {
                    assert(s.last() == rest.last());
                }
            },
            None => {
                assert(c =~= Seq::empty().push(c.first()) + c.drop_first());
                lemma_sum_prepend(c.first(), c.drop_first());
            },
        }
    }
}

/// A planned peg-out: the selected inputs in deterministic order, the
/// ordered outputs, the amount sent to the recipient, and the fee budget.
#[derive(Clone, Debug)]
pub struct PegoutTx {
    pub inputs: Vec<Utxo>,
    pub outputs: Vec<TxOut>,
    pub sent: u64,
    pub fee: u64,
}

/// Deterministic construction: the selection of a planned peg-out is a pure
/// function of the wallet's consensus snapshot and the request, so two
/// members holding the same snapshot, transaction list and unspent outputs
/// plan identical transactions.
pub proof fn lemma_pegout_deterministic(
    a: Wallet,
    b: Wallet,
    entries: Seq<(TxId, u32)>,
    utxos: Seq<Utxo>,
    amt: u64,
)
    requires
        a.consensus_height == b.consensus_height,
        a.consensus_feerate == b.consensus_feerate,
    ensures
        spec_pegout_selection(entries, a.consensus_height, a.consensus_feerate, utxos, amt)
            == spec_pegout_selection(entries, b.consensus_height, b.consensus_feerate, utxos, amt),
{
}

impl Wallet {
    /// Plan a peg-out paying `amt` sats to `recipient_script`, with change
    /// to `change_script`. The admissible unspent outputs are selected
    /// deterministically, inputs and outputs are ordered lexicographically,
    /// and exactly the requested amount is sent: `sent == amt` on success.
    pub fn create_pegout_tx(
        &self,
        txs: &Vec<TxInfo>,
        utxos: Vec<Utxo>,
        recipient_script: Vec<u8>,
        change_script: Vec<u8>,
        amt: u64,
    ) -> (r: Result<PegoutTx, WalletError>)
        ensures
            ({
                let entries = spec_height_entries(txs@);
                let fee = spec_fee_budget(self.consensus_feerate);
                match (r, spec_pegout_selection(
                    entries,
                    self.consensus_height,
                    self.consensus_feerate,
                    utxos@,
                    amt,
                )) {
                    (Ok(tx), Some(sel)) => {
                        let change = sum_values(sel) - amt - fee;
                        &&& tx.sent == amt
                        &&& tx.fee == fee
                        &&& tx.inputs@ == sel.sort_by(le_of::<Utxo>())
                        &&& change >= 0
                        &&& (change == 0 ==> tx.outputs@.len() == 1 && tx.outputs@[0].value == amt
                            && tx.outputs@[0].script@ == recipient_script@)
                        &&& (change > 0 ==> tx.outputs@.len() == 2 && (if out_le(
                            amt as int,
                            recipient_script@,
                            change,
                            change_script@,
                        ) {
                            tx.outputs@[0].value == amt && tx.outputs@[0].script@
                                == recipient_script@ && tx.outputs@[1].value == change
                                && tx.outputs@[1].script@ == change_script@
                        } else {
                            tx.outputs@[0].value == change && tx.outputs@[0].script@
                                == change_script@ && tx.outputs@[1].value == amt
                                && tx.outputs@[1].script@ == recipient_script@
                        }))
                    },
                    (Err(e), None) => e == WalletError::InsufficientFunds,
                    _ => false,
                }
            }),
    {
        let vbytes: u64 = BASE_TX_VBYTES + 2 * OUTPUT_VBYTES;
        proof {
            assert(vbytes == 73);
            lemma_mul_inequality(self.consensus_feerate as int, u64::MAX as int, vbytes as int);
            lemma_div_is_ordered(
                self.consensus_feerate as int * (vbytes as int),
                u64::MAX as int * (vbytes as int),
                1000,
            );
            assert((u64::MAX as int) * (vbytes as int) / 1000 <= u64::MAX as int);
        }
        let fee128: u128 = (self.consensus_feerate as u128) * (vbytes as u128) / 1000;
        proof {
            assert(fee128 == spec_fee_budget(self.consensus_feerate));
        }
        let fee: u64 = fee128 as u64;
        let ghost entries = spec_height_entries(txs@);
        let ghost cands = spec_admissible_filter(entries, utxos@, self.consensus_height);
        let ghost target = amt + spec_fee_budget(self.consensus_feerate);
        let selector = self.coin_selection(txs, GreedyCoinSelection);
        let required: Vec<Utxo> = Vec::new();
        let res = match selector.coin_select(
            &required,
            utxos,
            self.consensus_feerate,
            amt,
            fee,
        ) {
            Ok(res) => res,
            Err(e) => {
                return Err(WalletError::InsufficientFunds);
            },
        };
        proof {
            assert(spec_select_prefix(cands, target) == Some(res.selected@));
            lemma_select_prefix_sum(cands, target);
        }
        let total: u128 = sum_utxos(&res.selected);
        proof {
            let sel = res.selected@;
            assert(sum_values(sel) >= target);
            if sel.len() > 0 {
                assert(sum_values(sel) - sel.last().value < target);
                assert(sum_values(sel) - target < sel.last().value);
            }
        }
        let change128: u128 = total - (amt as u128) - (fee as u128);
        let change: u64 = change128 as u64;
        let inputs = sort_vec(&res.selected);
        let mut outputs: Vec<TxOut> = Vec::new();
        let recipient_out = TxOut { value: amt, script: recipient_script };
        if change == 0 {
            outputs.push(recipient_out);
        } else {
            let change_out = TxOut { value: change, script: change_script };
            let recipient_first = amt < change || (amt == change && bytes_le_exec(
                &recipient_out.script,
                &change_out.script,
            ));
            if recipient_first {
                outputs.push(recipient_out);
                outputs.push(change_out);
            } else {
                outputs.push(change_out);
                outputs.push(recipient_out);
            }
        }
        Ok(PegoutTx { inputs, outputs, sent: amt, fee })
    }
}

} // verus!
