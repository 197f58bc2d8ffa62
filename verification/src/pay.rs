//! The per-operation pay state machine: a finite automaton bridging an
//! in-federation escrow contract to an outbound Lightning payment.

use vstd::prelude::*;

verus! {

/// The id of an in-federation escrow contract: 256 bits as four 64-bit
/// limbs, `w0` holding the first eight bytes in big-endian order.
#[derive(Clone, Copy, Debug, PartialEq, Eq, Hash, Structural)]
pub struct ContractId {
    pub w0: u64,
    pub w1: u64,
    pub w2: u64,
    pub w3: u64,
}

/// The opaque handle of one end-to-end payment attempt.
#[derive(Clone, Copy, Debug, PartialEq, Eq, Hash, Structural)]
pub struct OperationId {
    pub w0: u64,
    pub w1: u64,
    pub w2: u64,
    pub w3: u64,
}

/// A federation transaction id.
#[derive(Clone, Copy, Debug, PartialEq, Eq, Hash, Structural)]
pub struct TransactionId {
    pub w0: u64,
    pub w1: u64,
    pub w2: u64,
    pub w3: u64,
}

/// The secret whose hash matches the invoice payment hash; proof of
/// payment.
#[derive(Clone, Copy, Debug, PartialEq, Eq, Hash, Structural)]
pub struct Preimage {
    pub w0: u64,
    pub w1: u64,
    pub w2: u64,
    pub w3: u64,
}

/// A federation output: the transaction that carries it and the index
/// within it.
#[derive(Clone, Copy, Debug, PartialEq, Eq, Hash, Structural)]
pub struct OutPoint {
    pub txid: TransactionId,
    pub out_idx: u64,
}

/// Operation-id derivation: the contract id's bytes carried over
/// unchanged, so the id is a pure function of the contract id and retries
/// across restarts land on the same operation.
pub open spec fn spec_operation_id(c: ContractId) -> OperationId {
    OperationId { w0: c.w0, w1: c.w1, w2: c.w2, w3: c.w3 }
}

/// Why an escrow was cancelled rather than claimed.
#[derive(Clone, Copy, Debug, PartialEq, Eq, Structural)]
pub enum CancelReason {
    /// The contract amount does not cover the invoice plus routing fees.
    Underfunded,
    /// The contract's timelock leaves too little safety margin.
    TimelockTooClose,
    /// The Lightning payment itself failed.
    LightningFailed,
}

/// The initial state's payload: the contract to pay.
#[derive(Clone, Copy, Debug, PartialEq, Eq, Structural)]
pub struct GatewayPayInvoice {
    pub contract_id: ContractId,
}

/// States of the pay automaton. `PayInvoice` is initial; the other four
/// are terminal and have no successors.
#[derive(Clone, Copy, Debug, PartialEq, Eq, Structural)]
pub enum GatewayPayStates {
    PayInvoice(GatewayPayInvoice),
    Preimage(OutPoint, Preimage),
    Canceled(TransactionId, CancelReason),
    OfferDoesNotExist(ContractId),
    Failed,
}

/// The static payload every state of one operation shares.
#[derive(Clone, Copy, Debug, PartialEq, Eq, Structural)]
pub struct GatewayPayCommon {
    pub operation_id: OperationId,
}

/// One pay state machine: its operation handle and current state.
#[derive(Clone, Copy, Debug, PartialEq, Eq, Structural)]
pub struct GatewayPayStateMachine {
    pub common: GatewayPayCommon,
    pub state: GatewayPayStates,
}

/// Outcome of checking a fetched contract against the decoded invoice.
#[derive(Clone, Copy, Debug, PartialEq, Eq, Structural)]
pub enum ContractCheck {
    /// The offer exists, the amount covers invoice plus fees, and the
    /// timelock leaves enough safety.
    Valid,
    /// No offer exists under the contract id.
    NoOffer,
    /// The contract amount does not cover the invoice plus routing fees.
    Underfunded,
    /// The contract's timelock leaves less than the configured delta of
    /// safety.
    TimelockTooClose,
}

/// The contract check as a pure function of the decoded values, all
/// amounts in msats and heights in blocks.
pub open spec fn spec_validate_contract(
    offer_found: bool,
    contract_amount: u64,
    invoice_amount: u64,
    routing_fee: u64,
    contract_timelock: u64,
    current_block: u64,
    timelock_delta: u64,
) -> ContractCheck {
    if !offer_found {
        ContractCheck::NoOffer
    } else if contract_amount < invoice_amount + routing_fee {
        ContractCheck::Underfunded
    } else if contract_timelock < current_block + timelock_delta {
        ContractCheck::TimelockTooClose
    } else {
        ContractCheck::Valid
    }
}

/// Check a fetched contract: the offer must exist, the escrowed amount
/// must cover the invoice amount plus the configured routing fee, and the
/// timelock must leave at least `timelock_delta` blocks of safety.
pub fn validate_contract(
    offer_found: bool,
    contract_amount: u64,
    invoice_amount: u64,
    routing_fee: u64,
    contract_timelock: u64,
    current_block: u64,
    timelock_delta: u64,
) -> (r: ContractCheck)
    ensures
        r == spec_validate_contract(
            offer_found,
            contract_amount,
            invoice_amount,
            routing_fee,
            contract_timelock,
            current_block,
            timelock_delta,
        ),
{
    if !offer_found {
        ContractCheck::NoOffer
    } else if (contract_amount as u128) < (invoice_amount as u128) + (routing_fee as u128) {
        ContractCheck::Underfunded
    } else if (contract_timelock as u128) < (current_block as u128) + (timelock_delta as u128) {
        ContractCheck::TimelockTooClose
    } else {
        ContractCheck::Valid
    }
}

/// What the outside world reports back to a live machine: the contract
/// check's verdict and what the Lightning node and the federation
/// answered. One outcome drives one transition.
#[derive(Clone, Copy, Debug, PartialEq, Eq, Structural)]
pub enum PayOutcome {
    /// No offer exists under the contract id.
    OfferMissing,
    /// The contract failed validation; a cancel transaction was submitted
    /// for the escrow and the federation accepted it or not.
    ContractInvalid { reason: CancelReason, cancel_txid: TransactionId, cancel_accepted: bool },
    /// The Lightning payment succeeded with this preimage, and the
    /// escrow-claim output was submitted and accepted or not.
    Paid { preimage: Preimage, claim_outpoint: OutPoint, claim_accepted: bool },
    /// The Lightning payment failed; a cancel transaction was submitted
    /// and accepted or not.
    PayFailed { cancel_txid: TransactionId, cancel_accepted: bool },
}

/// Whether a state is terminal. Only the initial `PayInvoice` state is
/// live.
pub open spec fn spec_is_terminal(s: GatewayPayStates) -> bool {
    !(s is PayInvoice)
}

/// The transition function: pure in `(state, outcome)`. A terminal state
/// is returned unchanged; the live state moves to the terminal state the
/// outcome dictates.
pub open spec fn spec_transition(s: GatewayPayStates, o: PayOutcome) -> GatewayPayStates {
    match s {
        GatewayPayStates::PayInvoice(inv) => match o {
            PayOutcome::OfferMissing => GatewayPayStates::OfferDoesNotExist(inv.contract_id),
            PayOutcome::ContractInvalid { reason, cancel_txid, cancel_accepted } => if cancel_accepted {
                GatewayPayStates::Canceled(cancel_txid, reason)
            } else {
                GatewayPayStates::Failed
            },
            PayOutcome::Paid { preimage, claim_outpoint, claim_accepted } => if claim_accepted {
                GatewayPayStates::Preimage(claim_outpoint, preimage)
            } else {
                GatewayPayStates::Failed
            },
            PayOutcome::PayFailed { cancel_txid, cancel_accepted } => if cancel_accepted {
                GatewayPayStates::Canceled(cancel_txid, CancelReason::LightningFailed)
            } else {
                GatewayPayStates::Failed
            },
        },
        _ => s,
    }
}

impl GatewayPayStateMachine {
    /// Whether this machine has reached a terminal state.
    pub fn is_terminal(&self) -> (r: bool)
        ensures
            r == spec_is_terminal(self.state),
    {
        !matches!(self.state, GatewayPayStates::PayInvoice(_))
    }

    /// Take one transition. The operation handle never changes, and the
    /// new state is exactly what the transition function dictates.
    pub fn transition(&self, outcome: &PayOutcome) -> (r: GatewayPayStateMachine)
        ensures
            r.common == self.common,
            r.state == spec_transition(self.state, *outcome),
    {
        match self.state {
            GatewayPayStates::PayInvoice(inv) => {
                let next = match *outcome {
                    PayOutcome::OfferMissing => GatewayPayStates::OfferDoesNotExist(
                        inv.contract_id,
                    ),
                    PayOutcome::ContractInvalid { reason, cancel_txid, cancel_accepted } => {
                        if cancel_accepted {
                            GatewayPayStates::Canceled(cancel_txid, reason)
                        } else {
                            GatewayPayStates::Failed
                        }
                    },
                    PayOutcome::Paid { preimage, claim_outpoint, claim_accepted } => {
                        if claim_accepted {
                            GatewayPayStates::Preimage(claim_outpoint, preimage)
                        } else {
                            GatewayPayStates::Failed
                        }
                    },
                    PayOutcome::PayFailed { cancel_txid, cancel_accepted } => {
                        if cancel_accepted {
                            GatewayPayStates::Canceled(cancel_txid, CancelReason::LightningFailed)
                        } else {
                            GatewayPayStates::Failed
                        }
                    },
                };
                GatewayPayStateMachine { common: self.common, state: next }
            },
            _ => GatewayPayStateMachine { common: self.common, state: self.state },
        }
    }

    /// The operation this machine belongs to.
    pub fn operation_id(&self) -> (r: OperationId)
        ensures
            r == self.common.operation_id,
    {
        self.common.operation_id
    }
}

/// State-machine finality: from the one live state every outcome leads to
/// a terminal state in a single step, and terminal states have no
/// successors. Since the transition is a function of state and outcome, no
/// state ever has two successors both taken.
pub proof fn lemma_transition_terminal(s: GatewayPayStates, o: PayOutcome)
    ensures
        !spec_is_terminal(s) ==> spec_is_terminal(spec_transition(s, o)),
        spec_is_terminal(s) ==> spec_transition(s, o) == s,
{
}

} // verus!
