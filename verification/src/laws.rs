//! What holds of every escrow, proved from the rules of creation and
//! release.

use vstd::prelude::*;
use crate::contract::{create_step, release_step, Stage};
use crate::error::{EscrowError, Leg, TransferError};
use crate::settlement::{order_for, ReleaseEvent, StepView};
use crate::terms::{lemma_split_bounds, Terms};

verus! {

/// The fee and the payout of valid terms add up to the amount exactly, and
/// neither is negative.
pub proof fn split_conserves_amount(terms: Terms)
    requires
        terms.valid(),
    ensures
        terms.split().fee_amount + terms.split().developer_payout == terms.amount,
        0 <= terms.split().fee_amount <= terms.amount,
        0 <= terms.split().developer_payout <= terms.amount,
{
    lemma_split_bounds(terms.amount, terms.fee_percent);
}

/// A release that ends with a receipt was the release of a created escrow,
/// leaves it released with the same terms, and its receipt adds up to the
/// amount of those terms.
pub proof fn release_pays_whole_amount(stage: Stage, event: ReleaseEvent)
    requires
        release_step(stage, event).1 matches StepView::Finished(Ok(_)),
    ensures
        stage matches Stage::Created(terms) && release_step(stage, event) == (
            Stage::Released(terms),
            StepView::Finished(Ok(terms.split())),
        ) && terms.split().fee_amount + terms.split().developer_payout == terms.amount,
{
}

/// Both orders of valid terms carry an amount that is not negative, and the
/// two amounts add up to the amount held.
pub proof fn orders_pay_whole_amount(terms: Terms)
    requires
        terms.valid(),
    ensures
        0 <= order_for(terms, Leg::Fee).amount,
        0 <= order_for(terms, Leg::Payout).amount,
        order_for(terms, Leg::Fee).amount + order_for(terms, Leg::Payout).amount
            == terms.amount,
{
    lemma_split_bounds(terms.amount, terms.fee_percent);
}

/// On an escrow without terms every event of a release is answered with
/// `NotInitialized`: no transfer is ordered and nothing changes.
pub proof fn release_before_create_fails(event: ReleaseEvent)
    ensures
        release_step(Stage::Uninitialized, event) == (
            Stage::Uninitialized,
            StepView::Finished(Err(EscrowError::NotInitialized)),
        ),
{
}

/// Once terms are set, setting terms again fails with `AlreadyInitialized`,
/// whatever the new terms are, and the first terms stay.
pub proof fn create_twice_fails(stage: Stage, first: Terms, second: Terms)
    requires
        create_step(stage, first).1 is Ok,
    ensures
        create_step(stage, first).0 == Stage::Created(first),
        create_step(Stage::Created(first), second) == (
            Stage::Created(first),
            Err::<(), EscrowError>(EscrowError::AlreadyInitialized),
        ),
{
}

/// An escrow that has terms, paid out or not, never takes new ones.
pub proof fn create_needs_empty_escrow(stage: Stage, terms: Terms)
    requires
        !(stage is Uninitialized),
    ensures
        create_step(stage, terms) == (
            stage,
            Err::<(), EscrowError>(EscrowError::AlreadyInitialized),
        ),
{
}

/// After a release has ended with a receipt, every further event is answered
/// with `AlreadyReleased`: no transfer is ordered again and nothing changes.
pub proof fn release_twice_fails(stage: Stage, event: ReleaseEvent, again: ReleaseEvent)
    requires
        release_step(stage, event).1 matches StepView::Finished(Ok(_)),
    ensures
        release_step(release_step(stage, event).0, again) == (
            release_step(stage, event).0,
            StepView::Finished(Err(EscrowError::AlreadyReleased)),
        ),
{
}

/// A transfer is ordered only on a created escrow, and ordering one changes
/// nothing.
pub proof fn dispatch_needs_created_escrow(stage: Stage, event: ReleaseEvent)
    requires
        release_step(stage, event).1 is Dispatch,
    ensures
        stage is Created,
        release_step(stage, event).0 == stage,
{
}

/// A transfer that failed ends the release with its leg and its cause, the
/// escrow stays created with the same terms, and a new request starts over
/// with the fee transfer.
pub proof fn failed_transfer_can_be_retried(terms: Terms, leg: Leg, cause: TransferError)
    ensures
        release_step(Stage::Created(terms), ReleaseEvent::Settled { leg, outcome: Err(cause) })
            == (
            Stage::Created(terms),
            StepView::Finished(Err(EscrowError::TransferFailed { leg, cause })),
        ),
        release_step(Stage::Created(terms), ReleaseEvent::Requested) == (
            Stage::Created(terms),
            StepView::Dispatch(order_for(terms, Leg::Fee)),
        ),
{
}

/// A release never moves an escrow backwards and never changes its terms:
/// the stage stays as it is, or goes from created to released.
pub proof fn release_moves_forward(stage: Stage, event: ReleaseEvent)
    ensures
        release_step(stage, event).0 == stage || (stage matches Stage::Created(terms)
            && release_step(stage, event).0 == Stage::Released(terms)),
{
}

/// Setting terms never moves an escrow backwards: the stage stays as it is,
/// or goes from uninitialized to created with valid terms.
pub proof fn create_moves_forward(stage: Stage, terms: Terms)
    ensures
        create_step(stage, terms).0 == stage || (stage is Uninitialized && terms.valid()
            && create_step(stage, terms).0 == Stage::Created(terms)),
{
}

} // verus!
