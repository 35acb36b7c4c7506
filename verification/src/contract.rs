//! The escrow itself: its stored state and the two operations on it.

use vstd::prelude::*;
use crate::error::{EscrowError, Leg};
use crate::party::PartyId;
use crate::settlement::{order_for, ReleaseEvent, ReleaseStep, StepView, TransferOrder};
use crate::terms::{EscrowRecord, ReleaseReceipt, Terms};

verus! {

/// The state of an escrow as mathematical values.
pub enum Stage {
    /// No terms are set.
    Uninitialized,
    /// The terms are set and nothing is paid.
    Created(Terms),
    /// Both transfers of these terms have gone through.
    Released(Terms),
}

/// Where an escrow stands in its life.
#[derive(Clone, Copy, Debug, PartialEq, Eq, Structural)]
pub enum Lifecycle {
    Uninitialized,
    Created,
    Released,
}

/// What creating an escrow with `terms` does at `stage`: the stage after it
/// and the answer. Terms are set once, on an escrow that has none, and only
/// if they are valid.
pub open spec fn create_step(stage: Stage, terms: Terms) -> (Stage, Result<(), EscrowError>) {
    if !(stage is Uninitialized) {
        (stage, Err(EscrowError::AlreadyInitialized))
    } else if !terms.valid() {
        (stage, Err(EscrowError::InvalidTerms))
    } else {
        (Stage::Created(terms), Ok(()))
    }
}

/// What an event of a release does at `stage`: the stage after it and the
/// answer.
///
/// Only a created escrow is released. A request orders the fee transfer; a
/// fee transfer that went through orders the payout transfer; a payout
/// transfer that went through makes the escrow released and ends the release
/// with the receipt. A transfer that failed ends the release with the leg
/// and the cause, and the escrow stays created.
pub open spec fn release_step(stage: Stage, event: ReleaseEvent) -> (Stage, StepView) {
    match stage {
        Stage::Uninitialized => (stage, StepView::Finished(Err(EscrowError::NotInitialized))),
        Stage::Released(_) => (stage, StepView::Finished(Err(EscrowError::AlreadyReleased))),
        Stage::Created(terms) => match event {
            ReleaseEvent::Requested => (stage, StepView::Dispatch(order_for(terms, Leg::Fee))),
            ReleaseEvent::Settled { leg, outcome: Err(cause) } => (
                stage,
                StepView::Finished(Err(EscrowError::TransferFailed { leg, cause })),
            ),
            ReleaseEvent::Settled { leg: Leg::Fee, outcome: Ok(_) } => (
                stage,
                StepView::Dispatch(order_for(terms, Leg::Payout)),
            ),
            ReleaseEvent::Settled { leg: Leg::Payout, outcome: Ok(_) } => (
                Stage::Released(terms),
                StepView::Finished(Ok(terms.split())),
            ),
        },
    }
}

/// One escrow: the record of its terms, once set, and whether it has been
/// paid out.
#[derive(Debug, PartialEq, Eq)]
pub struct EscrowContract {
    record: Option<EscrowRecord>,
    released: bool,
}

impl View for EscrowContract {
    type V = Stage;

    closed spec fn view(&self) -> Stage {
        match self.record {
            None => Stage::Uninitialized,
            Some(record) => if self.released {
                Stage::Released(record@)
            } else {
                Stage::Created(record@)
            },
        }
    }
}

impl EscrowContract {
    /// What holds of every escrow: only one with terms is released.
    #[verifier::type_invariant]
    closed spec fn well_formed(&self) -> bool {
        self.released ==> self.record is Some
    }

    /// An escrow without terms.
    pub fn new() -> (escrow: EscrowContract)
        ensures
            escrow@ == Stage::Uninitialized,
    {
        EscrowContract { record: None, released: false }
    }

    /// The escrow that holds `record`, paid out or not.
    pub fn restore(record: EscrowRecord, released: bool) -> (escrow: EscrowContract)
        ensures
            escrow@ == if released {
                Stage::Released(record@)
            } else {
                Stage::Created(record@)
            },
    {
        EscrowContract { record: Some(record), released }
    }

    /// Where the escrow stands.
    pub fn lifecycle(&self) -> (lifecycle: Lifecycle)
        ensures
            lifecycle == match self@ {
                Stage::Uninitialized => Lifecycle::Uninitialized,
                Stage::Created(_) => Lifecycle::Created,
                Stage::Released(_) => Lifecycle::Released,
            },
    {
        match &self.record {
            None => Lifecycle::Uninitialized,
            Some(_) => if self.released {
                Lifecycle::Released
            } else {
                Lifecycle::Created
            },
        }
    }

    /// Sets the terms of the escrow, once.
    ///
    /// Fails with `AlreadyInitialized` if terms are set, whatever the new
    /// ones are, and otherwise with `InvalidTerms` if a party has no name,
    /// the two parties are one, the amount is negative or the fee rate is not
    /// within 0 and 100. A failed call changes nothing; a successful one sets
    /// all four terms together.
    pub fn create_escrow(
        &mut self,
        client: PartyId,
        developer: PartyId,
        amount: i64,
        fee_percent: i64,
    ) -> (created: Result<(), EscrowError>)
        ensures
            (final(self)@, created) == create_step(
                old(self)@,
                Terms {
                    client: client@,
                    developer: developer@,
                    amount: amount as int,
                    fee_percent: fee_percent as int,
                },
            ),
    {
        proof {
            use_type_invariant(&*self);
        }
        if self.record.is_some() {
            return Err(EscrowError::AlreadyInitialized);
        }
        match EscrowRecord::new(client, developer, amount, fee_percent) {
            Err(error) => Err(error),
            Ok(record) => {
                self.record = Some(record);
                Ok(())
            },
        }
    }

    /// The terms of the escrow, or `NotInitialized` if none are set.
    pub fn read(&self) -> (found: Result<EscrowRecord, EscrowError>)
        ensures
            match self@ {
                Stage::Uninitialized => found == Err::<EscrowRecord, EscrowError>(
                    EscrowError::NotInitialized,
                ),
                Stage::Created(terms) | Stage::Released(terms) => found matches Ok(record)
                    && record@ == terms,
            },
    {
        match &self.record {
            None => Err(EscrowError::NotInitialized),
            Some(record) => Ok(record.clone()),
        }
    }

    /// Takes a release one step further.
    ///
    /// The caller starts with `Requested`, carries out each transfer that is
    /// ordered, reports its outcome with `Settled`, and goes on until the
    /// answer is `Finished`. The escrow decides every step from its stored
    /// state and the event alone: it keeps no memory of a release under way
    /// and relies on the caller to report each outcome once, for the transfer
    /// that was ordered.
    pub fn release_payment(&mut self, event: ReleaseEvent) -> (step: ReleaseStep)
        ensures
            (final(self)@, step@) == release_step(old(self)@, event),
    {
        proof {
            use_type_invariant(&*self);
        }
        match &self.record {
            None => ReleaseStep::Finished(Err(EscrowError::NotInitialized)),
            Some(record) => {
                if self.released {
                    return ReleaseStep::Finished(Err(EscrowError::AlreadyReleased));
                }
                match event {
                    ReleaseEvent::Requested => ReleaseStep::Dispatch(
                        TransferOrder::for_leg(record, Leg::Fee),
                    ),
                    ReleaseEvent::Settled { leg, outcome: Err(cause) } => ReleaseStep::Finished(
                        Err(EscrowError::TransferFailed { leg, cause }),
                    ),
                    ReleaseEvent::Settled { leg: Leg::Fee, outcome: Ok(_) } => ReleaseStep::Dispatch(
                        TransferOrder::for_leg(record, Leg::Payout),
                    ),
                    ReleaseEvent::Settled { leg: Leg::Payout, outcome: Ok(_) } => {
                        let receipt: ReleaseReceipt = record.split();
                        self.released = true;
                        ReleaseStep::Finished(Ok(receipt))
                    },
                }
            },
        }
    }
}

} // verus!
