//! The height index, consensus-filtered balance, coin selection, and
//! deterministic peg-out planning.

use fedibridge::consensus::{Wallet, WalletConsensus};
use fedibridge::select::{CoinSelector, GreedyCoinSelection};
use fedibridge::types::{TxId, TxInfo, Utxo, WalletError};

fn txid(n: u64) -> TxId {
    TxId { w0: n, w1: 0, w2: 0, w3: 0 }
}

fn wallet_at_height(height: u32) -> Wallet {
    let mut w = Wallet::new(0);
    w.process_consensus_proposals(vec![WalletConsensus { block_height: height, fee_rate: 1000 }]);
    assert_eq!(w.consensus_height, height);
    w
}

#[test]
fn height_map_skips_mempool_entries() {
    let w = Wallet::new(0);
    let txs = vec![
        TxInfo { txid: txid(1), height: Some(90) },
        TxInfo { txid: txid(2), height: None },
        TxInfo { txid: txid(3), height: Some(110) },
    ];
    let index = w.height_map(&txs);
    assert_eq!(index.height_of(&txid(1)), Some(90));
    assert_eq!(index.height_of(&txid(2)), None);
    assert_eq!(index.height_of(&txid(3)), Some(110));
    assert_eq!(index.height_of(&txid(4)), None);
}

#[test]
fn balance_filters_by_consensus_height() {
    // three 10k-sat outputs at heights {90, 100, 110}; consensus height 100
    let w = wallet_at_height(100);
    let txs = vec![
        TxInfo { txid: txid(1), height: Some(90) },
        TxInfo { txid: txid(2), height: Some(100) },
        TxInfo { txid: txid(3), height: Some(110) },
    ];
    let utxos = vec![
        Utxo { txid: txid(1), vout: 0, value: 10_000 },
        Utxo { txid: txid(2), vout: 0, value: 10_000 },
        Utxo { txid: txid(3), vout: 0, value: 10_000 },
    ];
    assert_eq!(w.balance(&txs, &utxos), 20_000);
}

#[test]
fn balance_ignores_unknown_heights() {
    let w = wallet_at_height(100);
    let txs = vec![TxInfo { txid: txid(1), height: None }];
    let utxos = vec![
        Utxo { txid: txid(1), vout: 0, value: 10_000 },
        Utxo { txid: txid(9), vout: 0, value: 7_000 },
    ];
    assert_eq!(w.balance(&txs, &utxos), 0);
}

#[test]
fn required_utxo_rejection() {
    // a peg-out build pinning specific inputs fails as a programmer defect
    let w = wallet_at_height(100);
    let txs = vec![TxInfo { txid: txid(1), height: Some(50) }];
    let selector = w.coin_selection(&txs, GreedyCoinSelection);
    let required = vec![Utxo { txid: txid(1), vout: 0, value: 5_000 }];
    let optional = vec![Utxo { txid: txid(1), vout: 1, value: 5_000 }];
    let r = selector.coin_select(&required, optional, 1000, 1_000, 0);
    assert_eq!(r.unwrap_err(), WalletError::RequiredUtxosNotEmpty);
}

#[test]
fn selection_takes_shortest_covering_prefix() {
    let w = wallet_at_height(100);
    let txs = vec![
        TxInfo { txid: txid(1), height: Some(10) },
        TxInfo { txid: txid(2), height: Some(20) },
        TxInfo { txid: txid(3), height: Some(30) },
    ];
    let selector = w.coin_selection(&txs, GreedyCoinSelection);
    let optional = vec![
        Utxo { txid: txid(1), vout: 0, value: 4_000 },
        Utxo { txid: txid(2), vout: 0, value: 3_000 },
        Utxo { txid: txid(3), vout: 0, value: 9_000 },
    ];
    let r = selector.coin_select(&Vec::new(), optional, 1000, 6_000, 0).unwrap();
    assert_eq!(r.selected.len(), 2);
    assert_eq!(r.selected[0].txid, txid(1));
    assert_eq!(r.selected[1].txid, txid(2));
}

#[test]
fn selection_skips_inadmissible_candidates() {
    // outputs above the consensus height or of unknown height never reach
    // the inner selector
    let w = wallet_at_height(100);
    let txs = vec![
        TxInfo { txid: txid(1), height: Some(150) },
        TxInfo { txid: txid(2), height: Some(80) },
    ];
    let selector = w.coin_selection(&txs, GreedyCoinSelection);
    let optional = vec![
        Utxo { txid: txid(1), vout: 0, value: 50_000 },
        Utxo { txid: txid(9), vout: 0, value: 50_000 },
        Utxo { txid: txid(2), vout: 0, value: 5_000 },
    ];
    let r = selector.coin_select(&Vec::new(), optional, 1000, 5_000, 0).unwrap();
    assert_eq!(r.selected, vec![Utxo { txid: txid(2), vout: 0, value: 5_000 }]);
}

#[test]
fn selection_insufficient_funds() {
    let w = wallet_at_height(100);
    let txs = vec![TxInfo { txid: txid(1), height: Some(10) }];
    let selector = w.coin_selection(&txs, GreedyCoinSelection);
    let optional = vec![Utxo { txid: txid(1), vout: 0, value: 1_000 }];
    let r = selector.coin_select(&Vec::new(), optional, 1000, 2_000, 0);
    assert_eq!(r.unwrap_err(), WalletError::InsufficientFunds);
}

#[test]
fn pegout_exact_send_with_change() {
    let mut w = Wallet::new(0);
    // height 100 agreed, fee rate 1000 msat/vb: fee budget 73 sats
    w.process_consensus_proposals(vec![WalletConsensus { block_height: 100, fee_rate: 1000 }]);
    let txs = vec![TxInfo { txid: txid(1), height: Some(10) }];
    let utxos = vec![Utxo { txid: txid(1), vout: 0, value: 50_000 }];
    let tx = w
        .create_pegout_tx(&txs, utxos, vec![0x51], vec![0x52], 10_000)
        .unwrap();
    assert_eq!(tx.sent, 10_000);
    assert_eq!(tx.fee, 73);
    assert_eq!(tx.inputs.len(), 1);
    assert_eq!(tx.outputs.len(), 2);
    // outputs in lexicographic order: (10_000, [0x51]) before (39_927, [0x52])
    assert_eq!(tx.outputs[0].value, 10_000);
    assert_eq!(tx.outputs[0].script, vec![0x51]);
    assert_eq!(tx.outputs[1].value, 39_927);
    assert_eq!(tx.outputs[1].script, vec![0x52]);
}

#[test]
fn pegout_orders_inputs_lexicographically() {
    let mut w = Wallet::new(0);
    w.process_consensus_proposals(vec![WalletConsensus { block_height: 100, fee_rate: 1000 }]);
    let txs = vec![
        TxInfo { txid: txid(7), height: Some(10) },
        TxInfo { txid: txid(3), height: Some(10) },
    ];
    let utxos = vec![
        Utxo { txid: txid(7), vout: 1, value: 30_000 },
        Utxo { txid: txid(7), vout: 0, value: 30_000 },
        Utxo { txid: txid(3), vout: 5, value: 30_000 },
    ];
    let tx = w
        .create_pegout_tx(&txs, utxos, vec![0x00], vec![0x01], 80_000)
        .unwrap();
    assert_eq!(tx.inputs.len(), 3);
    assert_eq!((tx.inputs[0].txid, tx.inputs[0].vout), (txid(3), 5));
    assert_eq!((tx.inputs[1].txid, tx.inputs[1].vout), (txid(7), 0));
    assert_eq!((tx.inputs[2].txid, tx.inputs[2].vout), (txid(7), 1));
}

#[test]
fn pegout_without_change_has_single_output() {
    let mut w = Wallet::new(0);
    // fee rate below 1 sat of budget: 13 msat/vb * 73 vb = 949 msat -> 0 sats
    w.process_consensus_proposals(vec![WalletConsensus { block_height: 100, fee_rate: 13 }]);
    let txs = vec![TxInfo { txid: txid(1), height: Some(10) }];
    let utxos = vec![Utxo { txid: txid(1), vout: 0, value: 10_000 }];
    let tx = w
        .create_pegout_tx(&txs, utxos, vec![0x51], vec![0x52], 10_000)
        .unwrap();
    assert_eq!(tx.sent, 10_000);
    assert_eq!(tx.fee, 0);
    assert_eq!(tx.outputs.len(), 1);
    assert_eq!(tx.outputs[0].value, 10_000);
}

#[test]
fn pegout_fails_without_admissible_funds() {
    let mut w = Wallet::new(0);
    w.process_consensus_proposals(vec![WalletConsensus { block_height: 100, fee_rate: 1000 }]);
    // funds exist but above the consensus height
    let txs = vec![TxInfo { txid: txid(1), height: Some(200) }];
    let utxos = vec![Utxo { txid: txid(1), vout: 0, value: 50_000 }];
    let r = w.create_pegout_tx(&txs, utxos, vec![0x51], vec![0x52], 10_000);
    assert_eq!(r.unwrap_err(), WalletError::InsufficientFunds);
}

#[test]
fn pegout_is_deterministic_across_instances() {
    // two wallets fed the same snapshot plan byte-identical transactions
    let make = || {
        let mut w = Wallet::new(0);
        w.process_consensus_proposals(vec![WalletConsensus {
            block_height: 100,
            fee_rate: 2000,
        }]);
        let txs = vec![
            TxInfo { txid: txid(5), height: Some(10) },
            TxInfo { txid: txid(6), height: Some(20) },
        ];
        let utxos = vec![
            Utxo { txid: txid(6), vout: 0, value: 20_000 },
            Utxo { txid: txid(5), vout: 2, value: 20_000 },
        ];
        w.create_pegout_tx(&txs, utxos, vec![0xaa], vec![0xbb], 25_000)
            .unwrap()
    };
    let a = make();
    let b = make();
    assert_eq!(a.inputs, b.inputs);
    assert_eq!(a.sent, b.sent);
    assert_eq!(a.fee, b.fee);
    assert_eq!(a.outputs.len(), b.outputs.len());
    for (x, y) in a.outputs.iter().zip(b.outputs.iter()) {
        assert_eq!(x.value, y.value);
        assert_eq!(x.script, y.script);
    }
}
