//! The pay state machine, the public subscription lifecycle, and gateway
//! registration against the real secp256k1 library.

use fedibridge::gateway::{
    await_paid_invoice, gateway_pay_bolt11_invoice, gateway_subscribe_ln_pay, FeeConsensus,
    GatewayClientGen, GatewayClientStateMachines, GatewayError, GatewayExtPayStates,
    GatewayMeta, LightningClientConfig, LightningInput, LightningOutput, RouteHint, RoutingFees,
    GW_ANNOUNCEMENT_TTL_SECS,
};
use fedibridge::pay::{
    validate_contract, CancelReason, ContractCheck, ContractId, GatewayPayStates, OutPoint,
    PayOutcome, Preimage, TransactionId,
};

fn contract(n: u64) -> ContractId {
    ContractId { w0: n, w1: n + 1, w2: n + 2, w3: n + 3 }
}

fn cancel_txid(n: u64) -> TransactionId {
    TransactionId { w0: n, w1: 0, w2: 0, w3: 0 }
}

fn outpoint(n: u64) -> OutPoint {
    OutPoint { txid: cancel_txid(n), out_idx: 0 }
}

fn preimage(n: u64) -> Preimage {
    Preimage { w0: n, w1: n, w2: n, w3: n }
}

fn gen() -> GatewayClientGen {
    GatewayClientGen {
        timelock_delta: 10,
        mint_channel_id: 4,
        fees: RoutingFees { base_msat: 1_000, proportional_millionths: 100 },
    }
}

fn cfg() -> LightningClientConfig {
    LightningClientConfig {
        fee_consensus: FeeConsensus { contract_input: 11, contract_output: 22 },
    }
}

fn node_pubkey_bytes() -> Vec<u8> {
    let keypair = secp256k1::Keypair::from_secret_bytes([2u8; 32]).unwrap();
    keypair.public_key().serialize().to_vec()
}

#[test]
fn operation_id_is_pure_in_contract_id() {
    let c = contract(40);
    let (id1, machine, meta) = gateway_pay_bolt11_invoice(c);
    let (id2, _, _) = gateway_pay_bolt11_invoice(c);
    assert_eq!(id1, id2);
    assert_eq!((id1.w0, id1.w1, id1.w2, id1.w3), (c.w0, c.w1, c.w2, c.w3));
    assert_eq!(machine.operation_id(), id1);
    assert!(matches!(meta, GatewayMeta::Pay));
    let GatewayClientStateMachines::Pay(m) = machine;
    assert_eq!(
        m.state,
        GatewayPayStates::PayInvoice(fedibridge::pay::GatewayPayInvoice { contract_id: c })
    );
}

#[test]
fn pay_happy_path() {
    // contract C, Lightning returns preimage P, the claim is accepted:
    // the subscription emits Created, Preimage{P}, Success{P} exactly
    let c = contract(1);
    let (_, machine, _) = gateway_pay_bolt11_invoice(c);
    let paid = machine.transition(&PayOutcome::Paid {
        preimage: preimage(9),
        claim_outpoint: outpoint(3),
        claim_accepted: true,
    });
    let GatewayClientStateMachines::Pay(m) = paid;
    assert_eq!(m.state, GatewayPayStates::Preimage(outpoint(3), preimage(9)));

    let outcome = await_paid_invoice(&vec![machine, paid]).unwrap();
    assert_eq!(outcome, Ok((outpoint(3), preimage(9))));

    let events = gateway_subscribe_ln_pay(outcome, true, false);
    assert_eq!(
        events,
        vec![
            GatewayExtPayStates::Created,
            GatewayExtPayStates::Preimage { preimage: preimage(9) },
            GatewayExtPayStates::Success { preimage: preimage(9) },
        ]
    );
}

#[test]
fn pay_offer_missing() {
    let c = contract(2);
    let (_, machine, _) = gateway_pay_bolt11_invoice(c);
    let refused = machine.transition(&PayOutcome::OfferMissing);
    let GatewayClientStateMachines::Pay(m) = refused;
    assert_eq!(m.state, GatewayPayStates::OfferDoesNotExist(c));

    let outcome = await_paid_invoice(&vec![refused]).unwrap();
    assert_eq!(outcome, Err(GatewayError::OfferDoesNotExist(c)));
    let events = gateway_subscribe_ln_pay(outcome, false, false);
    assert_eq!(
        events,
        vec![
            GatewayExtPayStates::Created,
            GatewayExtPayStates::OfferDoesNotExist { contract_id: c },
        ]
    );
}

#[test]
fn pay_cancel_and_failure_paths() {
    let c = contract(3);
    let (_, machine, _) = gateway_pay_bolt11_invoice(c);
    let canceled = machine.transition(&PayOutcome::PayFailed {
        cancel_txid: cancel_txid(8),
        cancel_accepted: true,
    });
    let GatewayClientStateMachines::Pay(m) = canceled;
    assert_eq!(
        m.state,
        GatewayPayStates::Canceled(cancel_txid(8), CancelReason::LightningFailed)
    );
    let outcome = await_paid_invoice(&vec![canceled]).unwrap();
    assert_eq!(outcome, Err(GatewayError::Canceled(cancel_txid(8))));
    // cancel accepted by the federation: Canceled; otherwise: Fail
    assert_eq!(
        gateway_subscribe_ln_pay(outcome, false, true),
        vec![GatewayExtPayStates::Created, GatewayExtPayStates::Canceled]
    );
    assert_eq!(
        gateway_subscribe_ln_pay(outcome, false, false),
        vec![GatewayExtPayStates::Created, GatewayExtPayStates::Fail]
    );

    let failed = machine.transition(&PayOutcome::Paid {
        preimage: preimage(1),
        claim_outpoint: outpoint(1),
        claim_accepted: false,
    });
    let GatewayClientStateMachines::Pay(mf) = failed;
    assert_eq!(mf.state, GatewayPayStates::Failed);
}

#[test]
fn terminal_states_have_no_successors() {
    let c = contract(4);
    let (_, machine, _) = gateway_pay_bolt11_invoice(c);
    let terminal = machine.transition(&PayOutcome::OfferMissing);
    let after = terminal.transition(&PayOutcome::Paid {
        preimage: preimage(5),
        claim_outpoint: outpoint(5),
        claim_accepted: true,
    });
    assert_eq!(after, terminal);
}

#[test]
fn subscription_replay_reproduces_terminal_state() {
    // re-subscribing with the same persisted outcome yields the same events
    let outcome = Err(GatewayError::Failed);
    let first = gateway_subscribe_ln_pay(outcome, false, false);
    let second = gateway_subscribe_ln_pay(outcome, false, false);
    assert_eq!(first, second);
    assert_eq!(
        first,
        vec![GatewayExtPayStates::Created, GatewayExtPayStates::Fail]
    );
}

#[test]
fn await_skips_live_states() {
    let c = contract(6);
    let (_, live, _) = gateway_pay_bolt11_invoice(c);
    assert_eq!(await_paid_invoice(&vec![live, live]), None);
    assert_eq!(await_paid_invoice(&Vec::new()), None);
}

#[test]
fn contract_validation() {
    // offer missing
    assert_eq!(
        validate_contract(false, 0, 0, 0, 0, 0, 0),
        ContractCheck::NoOffer
    );
    // amount does not cover invoice plus routing fee
    assert_eq!(
        validate_contract(true, 1_000, 900, 200, 500, 100, 10),
        ContractCheck::Underfunded
    );
    // timelock leaves less than the delta of safety
    assert_eq!(
        validate_contract(true, 2_000, 900, 200, 105, 100, 10),
        ContractCheck::TimelockTooClose
    );
    assert_eq!(
        validate_contract(true, 2_000, 900, 200, 500, 100, 10),
        ContractCheck::Valid
    );
}

#[test]
fn transaction_item_amounts() {
    let module = gen().init(cfg(), vec![1u8; 32], node_pubkey_bytes()).unwrap();
    let input = module.input_amount(&LightningInput { amount: 777 });
    assert_eq!((input.amount, input.fee), (777, 11));
    let funded = module.output_amount(&LightningOutput::Contract { amount: 888 });
    assert_eq!((funded.amount, funded.fee), (888, 22));
    let offer = module.output_amount(&LightningOutput::Offer);
    assert_eq!((offer.amount, offer.fee), (0, 0));
    let cancel = module.output_amount(&LightningOutput::CancelOutgoing);
    assert_eq!((cancel.amount, cancel.fee), (0, 0));
}

#[test]
fn init_rejects_bad_keys() {
    // 0xff..ff exceeds the curve order; an all-zero key is invalid too
    assert!(gen().init(cfg(), vec![0xff; 32], node_pubkey_bytes()).is_none());
    assert!(gen().init(cfg(), vec![0u8; 32], node_pubkey_bytes()).is_none());
    // a mangled node key is refused
    assert!(gen().init(cfg(), vec![1u8; 32], vec![0u8; 33]).is_none());
    assert!(gen().init(cfg(), vec![1u8; 32], vec![2u8; 7]).is_none());
}

#[test]
fn context_carries_module_data() {
    let module = gen().init(cfg(), vec![1u8; 32], node_pubkey_bytes()).unwrap();
    let context = module.context();
    assert_eq!(context.redeem_key, vec![1u8; 32]);
    assert_eq!(context.timelock_delta, 10);
}

#[test]
fn registration_record_carries_route_hints() {
    let module = gen().init(cfg(), vec![1u8; 32], node_pubkey_bytes()).unwrap();
    let hint = RouteHint {
        short_channel_id: 77,
        base_msat: 5,
        proportional_millionths: 6,
        cltv_expiry_delta: 144,
    };
    let record = module
        .to_gateway_registration_info(vec![hint], 300, String::from("https://gw"), 50)
        .unwrap();
    assert_eq!(record.route_hints, vec![hint]);
    assert_eq!(record.valid_until, 350);
}

#[test]
fn registration_record_matches_secp() {
    let redeem = vec![1u8; 32];
    let module = gen().init(cfg(), redeem.clone(), node_pubkey_bytes()).unwrap();
    let record = module
        .register_with_federation(String::from("https://gw.example"), 1_000_000)
        .unwrap();
    assert_eq!(record.mint_channel_id, 4);
    assert_eq!(record.valid_until, 1_000_000 + GW_ANNOUNCEMENT_TTL_SECS);
    assert_eq!(record.api, "https://gw.example");
    assert!(record.route_hints.is_empty());
    assert_eq!(record.fees.base_msat, 1_000);
    assert_eq!(record.node_pub_key, node_pubkey_bytes());
    // the announced mint key is the x-only public key of the redeem key,
    // as the real library computes it
    let keypair = secp256k1::Keypair::from_secret_bytes([1u8; 32]).unwrap();
    let expected = keypair.x_only_public_key().0.serialize().to_vec();
    assert_eq!(record.mint_pub_key, expected);
    assert_ne!(record.mint_pub_key, redeem);
}
