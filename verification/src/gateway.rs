//! The gateway client module: starting pay operations, surfacing their
//! public lifecycle to subscribers, and registering the gateway with the
//! federation.

use crate::pay::{
    spec_is_terminal, spec_operation_id, spec_transition, ContractId, GatewayPayCommon,
    GatewayPayInvoice, GatewayPayStateMachine, GatewayPayStates, OperationId, OutPoint,
    PayOutcome, Preimage, TransactionId,
};
use vstd::prelude::*;

verus! {

/// Gateway announcement time-to-live, in seconds; registration must be
/// renewed before it elapses.
pub const GW_ANNOUNCEMENT_TTL_SECS: u64 = 600;

/// The public lifecycle of one payment operation, as subscribers see it:
/// `Created` first, then a single terminal event.
#[derive(Clone, Copy, Debug, PartialEq, Eq, Structural)]
pub enum GatewayExtPayStates {
    Created,
    Preimage { preimage: Preimage },
    Success { preimage: Preimage },
    Canceled,
    Fail,
    OfferDoesNotExist { contract_id: ContractId },
}

/// The tag under which pay operations appear in the operation log.
#[derive(Clone, Copy, Debug, PartialEq, Eq, Structural)]
pub enum GatewayMeta {
    Pay,
}

/// Errors of the gateway half, as one awaited payment resolves them.
#[derive(Clone, Copy, Debug, PartialEq, Eq, Structural)]
pub enum GatewayError {
    /// The gateway cancelled the contract with this cancel transaction.
    Canceled(TransactionId),
    /// No offer exists under the contract id.
    OfferDoesNotExist(ContractId),
    /// An unrecoverable error occurred in the gateway.
    Failed,
}

/// The state machines this module runs; one variant per operation kind.
#[derive(Clone, Copy, Debug, PartialEq, Eq, Structural)]
pub enum GatewayClientStateMachines {
    Pay(GatewayPayStateMachine),
}

impl GatewayClientStateMachines {
    /// The machine's current state.
    pub open spec fn spec_state(&self) -> GatewayPayStates {
        match *self {
            GatewayClientStateMachines::Pay(p) => p.state,
        }
    }

    /// The operation a machine belongs to.
    pub fn operation_id(&self) -> (r: OperationId)
        ensures
            match *self {
                GatewayClientStateMachines::Pay(p) => r == p.common.operation_id,
            },
    {
        match self {
            GatewayClientStateMachines::Pay(p) => p.operation_id(),
        }
    }

    /// Take one transition of the wrapped machine.
    pub fn transition(&self, outcome: &PayOutcome) -> (r: GatewayClientStateMachines)
        ensures
            match *self {
                GatewayClientStateMachines::Pay(p) => r == GatewayClientStateMachines::Pay(
                    GatewayPayStateMachine {
                        common: p.common,
                        state: spec_transition(p.state, *outcome),
                    },
                ),
            },
    {
        match self {
            GatewayClientStateMachines::Pay(p) => GatewayClientStateMachines::Pay(
                p.transition(outcome),
            ),
        }
    }
}

/// Everything the atomic start of a payment persists, derived purely from
/// the contract id: the operation id, the initial machine, and the
/// operation-log tag. The surrounding store commits all three in one
/// transaction.
pub fn gateway_pay_bolt11_invoice(contract_id: ContractId) -> (r: (
    OperationId,
    GatewayClientStateMachines,
    GatewayMeta,
))
    ensures
        r.0 == spec_operation_id(contract_id),
        r.1 == GatewayClientStateMachines::Pay(
            GatewayPayStateMachine {
                common: GatewayPayCommon { operation_id: spec_operation_id(contract_id) },
                state: GatewayPayStates::PayInvoice(GatewayPayInvoice { contract_id }),
            },
        ),
        r.2 == GatewayMeta::Pay,
{
    let operation_id = OperationId {
        w0: contract_id.w0,
        w1: contract_id.w1,
        w2: contract_id.w2,
        w3: contract_id.w3,
    };
    let machine = GatewayClientStateMachines::Pay(
        GatewayPayStateMachine {
            common: GatewayPayCommon { operation_id },
            state: GatewayPayStates::PayInvoice(GatewayPayInvoice { contract_id }),
        },
    );
    (operation_id, machine, GatewayMeta::Pay)
}

/// How one machine state resolves an awaited payment: `None` while live,
/// otherwise the claimed outpoint and preimage, or the error.
pub open spec fn spec_classify(s: GatewayPayStates) -> Option<
    Result<(OutPoint, Preimage), GatewayError>,
> {
    match s {
        GatewayPayStates::PayInvoice(_) => None,
        GatewayPayStates::Preimage(outpoint, preimage) => Some(Ok((outpoint, preimage))),
        GatewayPayStates::Canceled(cancel_txid, _) => Some(Err(GatewayError::Canceled(cancel_txid))),
        GatewayPayStates::OfferDoesNotExist(contract_id) => Some(
            Err(GatewayError::OfferDoesNotExist(contract_id)),
        ),
        GatewayPayStates::Failed => Some(Err(GatewayError::Failed)),
    }
}

/// The first terminal resolution in a stream of machine updates.
pub open spec fn spec_first_terminal(updates: Seq<GatewayClientStateMachines>) -> Option<
    Result<(OutPoint, Preimage), GatewayError>,
>
    decreases updates.len(),
{
    if updates.len() == 0 {
        None
    } else {
        match spec_classify(updates.first().spec_state()) {
            Some(r) => Some(r),
            None => spec_first_terminal(updates.drop_first()),
        }
    }
}

/// Await the paid invoice over the observed machine updates, in order: the
/// first terminal state resolves the payment; `None` if none is terminal
/// yet.
pub fn await_paid_invoice(updates: &Vec<GatewayClientStateMachines>) -> (r: Option<
    Result<(OutPoint, Preimage), GatewayError>,
>)
    ensures
        r == spec_first_terminal(updates@),
{
    let mut i: usize = 0;
    proof {
        assert(updates@.skip(0) =~= updates@);
    }
    while i < updates.len()
        invariant
            i <= updates@.len(),
            spec_first_terminal(updates@) == spec_first_terminal(updates@.skip(i as int)),
        decreases updates@.len() - i,
    {
        proof {
            assert(updates@.skip(i as int).first() == updates@[i as int]);
            assert(updates@.skip(i as int).drop_first() =~= updates@.skip(i as int + 1));
        }
        let update = updates[i];
        match update {
            GatewayClientStateMachines::Pay(machine) => match machine.state {
                GatewayPayStates::Preimage(outpoint, preimage) => {
                    return Some(Ok((outpoint, preimage)));
                },
                GatewayPayStates::Canceled(cancel_txid, _) => {
                    return Some(Err(GatewayError::Canceled(cancel_txid)));
                },
                GatewayPayStates::OfferDoesNotExist(contract_id) => {
                    return Some(Err(GatewayError::OfferDoesNotExist(contract_id)));
                },
                GatewayPayStates::Failed => {
                    return Some(Err(GatewayError::Failed));
                },
                GatewayPayStates::PayInvoice(_) => {},
            },
        }
        i += 1;
    }
    proof {
        assert(updates@.skip(updates@.len() as int) =~= Seq::<GatewayClientStateMachines>::empty());
    }
    None
}

/// The event sequence one subscription yields, as a pure function of the
/// awaited outcome and the federation's answers: `primary_output_ok` says
/// whether the claimed primary-module output finalised, `cancel_accepted`
/// whether the federation accepted the cancel transaction.
pub open spec fn spec_subscription_events(
    outcome: Result<(OutPoint, Preimage), GatewayError>,
    primary_output_ok: bool,
    cancel_accepted: bool,
) -> Seq<GatewayExtPayStates> {
    match outcome {
        Ok((outpoint, preimage)) => if primary_output_ok {
            seq![
                GatewayExtPayStates::Created,
                GatewayExtPayStates::Preimage { preimage },
                GatewayExtPayStates::Success { preimage },
            ]
        } else {
            seq![
                GatewayExtPayStates::Created,
                GatewayExtPayStates::Preimage { preimage },
                GatewayExtPayStates::Fail,
            ]
        },
        Err(GatewayError::Canceled(_)) => if cancel_accepted {
            seq![GatewayExtPayStates::Created, GatewayExtPayStates::Canceled]
        } else {
            seq![GatewayExtPayStates::Created, GatewayExtPayStates::Fail]
        },
        Err(GatewayError::OfferDoesNotExist(contract_id)) => seq![
            GatewayExtPayStates::Created,
            GatewayExtPayStates::OfferDoesNotExist { contract_id },
        ],
        Err(GatewayError::Failed) => seq![GatewayExtPayStates::Created, GatewayExtPayStates::Fail],
    }
}

/// Produce the public event sequence of one subscription. Re-running this
/// on the same persisted outcome reproduces the same events, which is what
/// makes re-subscription after a restart replayable.
pub fn gateway_subscribe_ln_pay(
    outcome: Result<(OutPoint, Preimage), GatewayError>,
    primary_output_ok: bool,
    cancel_accepted: bool,
) -> (r: Vec<GatewayExtPayStates>)
    ensures
        r@ == spec_subscription_events(outcome, primary_output_ok, cancel_accepted),
{
    let mut events: Vec<GatewayExtPayStates> = Vec::new();
    events.push(GatewayExtPayStates::Created);
    match outcome {
        Ok((_, preimage)) => {
            events.push(GatewayExtPayStates::Preimage { preimage });
            if primary_output_ok {
                events.push(GatewayExtPayStates::Success { preimage });
            } else {
                events.push(GatewayExtPayStates::Fail);
            }
        },
        Err(GatewayError::Canceled(_)) => {
            if cancel_accepted {
                events.push(GatewayExtPayStates::Canceled);
            } else {
                events.push(GatewayExtPayStates::Fail);
            }
        },
        Err(GatewayError::OfferDoesNotExist(contract_id)) => {
            events.push(GatewayExtPayStates::OfferDoesNotExist { contract_id });
        },
        Err(GatewayError::Failed) => {
            events.push(GatewayExtPayStates::Fail);
        },
    }
    proof {
        assert(events@ =~= spec_subscription_events(outcome, primary_output_ok, cancel_accepted));
    }
    events
}

/// Whether a public event is terminal for the subscriber.
pub open spec fn spec_ext_terminal(e: GatewayExtPayStates) -> bool {
    match e {
        GatewayExtPayStates::Created => false,
        GatewayExtPayStates::Preimage { .. } => false,
        GatewayExtPayStates::Success { .. } => true,
        GatewayExtPayStates::Canceled => true,
        GatewayExtPayStates::Fail => true,
        GatewayExtPayStates::OfferDoesNotExist { .. } => true,
    }
}

/// Subscription replay: the event sequence is a pure function of the
/// persisted outcome and the federation's answers, it always starts with
/// `Created`, and it delivers exactly one terminal event, as its last
/// element. Re-subscribing to a completed operation therefore yields the
/// same terminal public state.
pub proof fn lemma_subscription_well_formed(
    outcome: Result<(OutPoint, Preimage), GatewayError>,
    primary_output_ok: bool,
    cancel_accepted: bool,
)
    ensures
        spec_subscription_events(outcome, primary_output_ok, cancel_accepted).len() >= 2,
        spec_subscription_events(outcome, primary_output_ok, cancel_accepted).first()
            == GatewayExtPayStates::Created,
        spec_ext_terminal(
            spec_subscription_events(outcome, primary_output_ok, cancel_accepted).last(),
        ),
        forall|j: int|
            0 <= j < spec_subscription_events(outcome, primary_output_ok, cancel_accepted).len()
                - 1 ==> !spec_ext_terminal(
                #[trigger] spec_subscription_events(outcome, primary_output_ok, cancel_accepted)[j],
            ),
{
}

/// Routing fees a gateway charges: a flat base and a proportional part.
#[derive(Clone, Copy, Debug, PartialEq, Eq, Structural)]
pub struct RoutingFees {
    pub base_msat: u32,
    pub proportional_millionths: u32,
}

/// One hop hint a gateway may announce for private routing.
#[derive(Clone, Copy, Debug, PartialEq, Eq, Structural)]
pub struct RouteHint {
    pub short_channel_id: u64,
    pub base_msat: u32,
    pub proportional_millionths: u32,
    pub cltv_expiry_delta: u16,
}

/// Per-item fees the federation charges on Lightning inputs and outputs,
/// in msats.
#[derive(Clone, Copy, Debug, PartialEq, Eq, Structural)]
pub struct FeeConsensus {
    pub contract_input: u64,
    pub contract_output: u64,
}

/// The module's slice of the federation config.
#[derive(Clone, Copy, Debug, PartialEq, Eq, Structural)]
pub struct LightningClientConfig {
    pub fee_consensus: FeeConsensus,
}

/// Amount and fee one transaction item carries, in msats.
#[derive(Clone, Copy, Debug, PartialEq, Eq, Structural)]
pub struct TransactionItemAmount {
    pub amount: u64,
    pub fee: u64,
}

/// A Lightning input redeeming an escrow, reduced to what the fee rules
/// read: its amount in msats.
#[derive(Clone, Copy, Debug, PartialEq, Eq, Structural)]
pub struct LightningInput {
    pub amount: u64,
}

/// A Lightning output, reduced to what the fee rules read: a funded
/// escrow contract with its amount, an offer, or a cancellation.
#[derive(Clone, Copy, Debug, PartialEq, Eq, Structural)]
pub enum LightningOutput {
    Contract { amount: u64 },
    Offer,
    CancelOutgoing,
}

/// The record a gateway announces to the federation.
#[derive(Clone, Debug)]
pub struct LightningGateway {
    pub mint_channel_id: u64,
    /// The x-only public key of the redeem key, 32 bytes.
    pub mint_pub_key: Vec<u8>,
    /// The Lightning node's public key, as the node reported it.
    pub node_pub_key: Vec<u8>,
    /// The URL under which the gateway's API is announced.
    pub api: String,
    pub route_hints: Vec<RouteHint>,
    /// Expiry of this announcement, in unix seconds.
    pub valid_until: u64,
    pub fees: RoutingFees,
}

/// Whether bytes form a valid secp256k1 secret key; a pure function of
/// the bytes.
pub uninterp spec fn seckey_valid(b: Seq<u8>) -> bool;

/// The 32-byte x-only public key a valid secret key determines; a pure
/// function of the bytes.
pub uninterp spec fn xonly_of(b: Seq<u8>) -> Seq<u8>;

/// Whether bytes parse as a secp256k1 public key; a pure function of the
/// bytes.
pub uninterp spec fn pubkey_parses(b: Seq<u8>) -> bool;

/// Relies on secp256k1::Keypair::from_secret_bytes and
/// Keypair::x_only_public_key: derives the x-only public key of a secret
/// key; `None` exactly when the bytes are not 32 bytes of a valid scalar.
#[verifier::external_body]
fn xonly_pubkey(seckey: &Vec<u8>) -> (r: Option<Vec<u8>>)
    ensures
        match r {
            Some(pk) => seckey_valid(seckey@) && pk@ == xonly_of(seckey@) && pk@.len() == 32,
            None => !seckey_valid(seckey@),
        },
{
    let bytes: [u8; 32] = match <[u8; 32]>::try_from(seckey.as_slice()) {
        Ok(bytes) => bytes,
        Err(_) => return None,
    };
    match secp256k1::Keypair::from_secret_bytes(bytes) {
        Ok(keypair) => Some(keypair.x_only_public_key().0.serialize().to_vec()),
        Err(_) => None,
    }
}

/// Relies on secp256k1::PublicKey::from_slice: whether the bytes are a 33-
/// or 65-byte encoding of a point on the curve.
#[verifier::external_body]
fn node_pubkey_valid(bytes: &Vec<u8>) -> (r: bool)
    ensures
        r == pubkey_parses(bytes@),
{
    secp256k1::PublicKey::from_slice(bytes.as_slice()).is_ok()
}

/// Copy a byte vector.
fn clone_bytes(v: &Vec<u8>) -> (r: Vec<u8>)
    ensures
        r@ == v@,
{
    let mut out: Vec<u8> = Vec::new();
    let mut i: usize = 0;
    while i < v.len()
        invariant
            i <= v@.len(),
            out@ == v@.take(i as int),
        decreases v@.len() - i,
    {
        out.push(v[i]);
        proof {
            assert(v@.take(i as int + 1) =~= v@.take(i as int).push(v@[i as int]));
        }
        i += 1;
    }
    proof {
        assert(v@.take(v@.len() as int) =~= v@);
    }
    out
}

/// What instantiates the gateway module: the configured timelock delta,
/// the mint channel, and the routing fees to announce.
#[derive(Clone, Copy, Debug, PartialEq, Eq, Structural)]
pub struct GatewayClientGen {
    pub timelock_delta: u64,
    pub mint_channel_id: u64,
    pub fees: RoutingFees,
}

/// The context every pay machine of this module shares.
#[derive(Clone, Debug)]
pub struct GatewayClientContext {
    pub redeem_key: Vec<u8>,
    pub timelock_delta: u64,
}

/// The gateway client module: the static data every operation of this
/// gateway shares.
#[derive(Clone, Debug)]
pub struct GatewayClientModule {
    pub cfg: LightningClientConfig,
    /// The secret key redeeming escrows, 32 bytes.
    pub redeem_key: Vec<u8>,
    /// The Lightning node's public key, as its RPC reported it.
    pub node_pub_key: Vec<u8>,
    pub timelock_delta: u64,
    pub mint_channel_id: u64,
    pub fees: RoutingFees,
}

impl GatewayClientGen {
    /// Build the module from the config, the redeem key derived from the
    /// module's root secret, and the node public key the Lightning RPC
    /// reported. `None` exactly when the node key does not parse or the
    /// redeem key is invalid.
    pub fn init(
        &self,
        cfg: LightningClientConfig,
        redeem_key: Vec<u8>,
        node_pub_key: Vec<u8>,
    ) -> (r: Option<GatewayClientModule>)
        ensures
            match r {
                Some(m) => pubkey_parses(node_pub_key@) && seckey_valid(redeem_key@) && m.cfg
                    == cfg && m.redeem_key@ == redeem_key@ && m.node_pub_key@ == node_pub_key@
                    && m.timelock_delta == self.timelock_delta && m.mint_channel_id
                    == self.mint_channel_id && m.fees == self.fees,
                None => !pubkey_parses(node_pub_key@) || !seckey_valid(redeem_key@),
            },
    {
        if !node_pubkey_valid(&node_pub_key) {
            return None;
        }
        match xonly_pubkey(&redeem_key) {
            Some(_) => Some(
                GatewayClientModule {
                    cfg,
                    redeem_key,
                    node_pub_key,
                    timelock_delta: self.timelock_delta,
                    mint_channel_id: self.mint_channel_id,
                    fees: self.fees,
                },
            ),
            None => None,
        }
    }
}

impl GatewayClientModule {
    /// The shared context handed to this module's pay machines.
    pub fn context(&self) -> (r: GatewayClientContext)
        ensures
            r.redeem_key@ == self.redeem_key@,
            r.timelock_delta == self.timelock_delta,
    {
        GatewayClientContext {
            redeem_key: clone_bytes(&self.redeem_key),
            timelock_delta: self.timelock_delta,
        }
    }

    /// Amount and fee of a Lightning input: the input's amount, and the
    /// configured per-input fee.
    pub fn input_amount(&self, input: &LightningInput) -> (r: TransactionItemAmount)
        ensures
            r.amount == input.amount,
            r.fee == self.cfg.fee_consensus.contract_input,
    {
        TransactionItemAmount { amount: input.amount, fee: self.cfg.fee_consensus.contract_input }
    }

    /// Amount and fee of a Lightning output: a funded contract carries its
    /// amount and the configured per-output fee; offers and cancellations
    /// are free.
    pub fn output_amount(&self, output: &LightningOutput) -> (r: TransactionItemAmount)
        ensures
            match *output {
                LightningOutput::Contract { amount } => r.amount == amount && r.fee
                    == self.cfg.fee_consensus.contract_output,
                LightningOutput::Offer => r.amount == 0 && r.fee == 0,
                LightningOutput::CancelOutgoing => r.amount == 0 && r.fee == 0,
            },
    {
        match output {
            LightningOutput::Contract { amount } => TransactionItemAmount {
                amount: *amount,
                fee: self.cfg.fee_consensus.contract_output,
            },
            LightningOutput::Offer => TransactionItemAmount { amount: 0, fee: 0 },
            LightningOutput::CancelOutgoing => TransactionItemAmount { amount: 0, fee: 0 },
        }
    }

    /// Build the registration record this gateway announces: its channel,
    /// the x-only redeem public key, the node key, the announce URL, the
    /// route hints, an expiry of `now + time_to_live_secs`, and the
    /// configured routing fees. `None` exactly when the redeem key is
    /// invalid.
    pub fn to_gateway_registration_info(
        &self,
        route_hints: Vec<RouteHint>,
        time_to_live_secs: u64,
        api: String,
        now: u64,
    ) -> (r: Option<LightningGateway>)
        requires
            now + time_to_live_secs <= u64::MAX,
        ensures
            match r {
                Some(g) => seckey_valid(self.redeem_key@) && g.mint_channel_id
                    == self.mint_channel_id && g.mint_pub_key@ == xonly_of(self.redeem_key@)
                    && g.node_pub_key@ == self.node_pub_key@ && g.api@ == api@ && g.route_hints@
                    == route_hints@ && g.valid_until == now + time_to_live_secs && g.fees
                    == self.fees,
                None => !seckey_valid(self.redeem_key@),
            },
    {
        let mint_pub_key = match xonly_pubkey(&self.redeem_key) {
            Some(pk) => pk,
            None => return None,
        };
        Some(
            LightningGateway {
                mint_channel_id: self.mint_channel_id,
                mint_pub_key,
                node_pub_key: clone_bytes(&self.node_pub_key),
                api,
                route_hints,
                valid_until: now + time_to_live_secs,
                fees: self.fees,
            },
        )
    }

    /// The record to submit when registering with the federation: no route
    /// hints yet, and the announcement time-to-live. The caller submits it
    /// and re-invokes before the expiry elapses.
    pub fn register_with_federation(&self, api: String, now: u64) -> (r: Option<LightningGateway>)
        requires
            now + GW_ANNOUNCEMENT_TTL_SECS <= u64::MAX,
        ensures
            match r {
                Some(g) => seckey_valid(self.redeem_key@) && g.mint_channel_id
                    == self.mint_channel_id && g.mint_pub_key@ == xonly_of(self.redeem_key@)
                    && g.node_pub_key@ == self.node_pub_key@ && g.api@ == api@
                    && g.route_hints@.len() == 0 && g.valid_until == now
                    + GW_ANNOUNCEMENT_TTL_SECS && g.fees == self.fees,
                None => !seckey_valid(self.redeem_key@),
            },
    {
        let route_hints: Vec<RouteHint> = Vec::new();
        self.to_gateway_registration_info(route_hints, GW_ANNOUNCEMENT_TTL_SECS, api, now)
    }
}

} // verus!
