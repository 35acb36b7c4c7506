//! The steps of a release: what the host reports and what the escrow orders.

use vstd::prelude::*;
use crate::error::{EscrowError, Leg, TransferError};
use crate::party::PartyId;
use crate::terms::{EscrowRecord, ReleaseReceipt, Split, Terms};

verus! {

/// A transfer order as mathematical values.
pub struct OrderView {
    pub leg: Leg,
    pub recipient: Seq<u8>,
    pub amount: int,
}

/// The transfer that pays `leg` of `terms`: the fee goes to the client's
/// transfer entry point, the payout to the developer's.
pub open spec fn order_for(terms: Terms, leg: Leg) -> OrderView {
    match leg {
        Leg::Fee => OrderView {
            leg,
            recipient: terms.client,
            amount: terms.split().fee_amount,
        },
        Leg::Payout => OrderView {
            leg,
            recipient: terms.developer,
            amount: terms.split().developer_payout,
        },
    }
}

/// One transfer for the host to carry out: `amount` to `recipient`. The
/// amount is never negative.
#[derive(Debug, PartialEq, Eq)]
pub struct TransferOrder {
    leg: Leg,
    recipient: PartyId,
    amount: i64,
}

impl View for TransferOrder {
    type V = OrderView;

    closed spec fn view(&self) -> OrderView {
        OrderView { leg: self.leg, recipient: self.recipient@, amount: self.amount as int }
    }
}

impl TransferOrder {
    /// What holds of every order.
    #[verifier::type_invariant]
    pub open spec fn well_formed(&self) -> bool {
        0 <= self@.amount
    }

    /// The order that pays `leg` of `record`.
    pub fn for_leg(record: &EscrowRecord, leg: Leg) -> (order: TransferOrder)
        ensures
            order@ == order_for(record@, leg),
    {
        let receipt: ReleaseReceipt = record.split();
        match leg {
            Leg::Fee => TransferOrder {
                leg,
                recipient: record.client().clone(),
                amount: receipt.fee_amount,
            },
            Leg::Payout => TransferOrder {
                leg,
                recipient: record.developer().clone(),
                amount: receipt.developer_payout,
            },
        }
    }

    /// Which of the two transfers this is.
    pub fn leg(&self) -> (leg: Leg)
        ensures
            leg == self@.leg,
    {
        self.leg
    }

    /// The party whose transfer entry point is to be called.
    pub fn recipient(&self) -> (recipient: &PartyId)
        ensures
            recipient@ == self@.recipient,
    {
        &self.recipient
    }

    /// The amount to transfer.
    pub fn amount(&self) -> (amount: i64)
        ensures
            amount == self@.amount,
    {
        self.amount
    }

    /// The amount as the unsigned word that the host's call takes. Nothing is
    /// lost: the amount is never negative.
    pub fn payload(&self) -> (payload: u64)
        ensures
            payload == self@.amount,
    {
        proof {
            use_type_invariant(self);
        }
        self.amount as u64
    }
}

/// What the caller reports to a release.
#[derive(Clone, Copy, Debug, PartialEq, Eq)]
pub enum ReleaseEvent {
    /// A release is asked for; nothing has been transferred yet.
    Requested,
    /// The host has tried the transfer of `leg`, with this outcome.
    Settled { leg: Leg, outcome: Result<(), TransferError> },
}

/// A step of a release as mathematical values.
pub enum StepView {
    Dispatch(OrderView),
    Finished(Result<Split, EscrowError>),
}

/// What the escrow answers to an event.
#[derive(Debug, PartialEq, Eq)]
pub enum ReleaseStep {
    /// The caller is to carry out this transfer and report its outcome.
    Dispatch(TransferOrder),
    /// The release is over: paid out with this receipt, or refused.
    Finished(Result<ReleaseReceipt, EscrowError>),
}

impl View for ReleaseStep {
    type V = StepView;

    open spec fn view(&self) -> StepView {
        match *self {
            ReleaseStep::Dispatch(order) => StepView::Dispatch(order@),
            ReleaseStep::Finished(Ok(receipt)) => StepView::Finished(Ok(receipt@)),
            ReleaseStep::Finished(Err(error)) => StepView::Finished(Err(error)),
        }
    }
}

} // verus!
