//! The terms of an escrow and the split of its amount.

use vstd::prelude::*;
use crate::error::EscrowError;
use crate::party::PartyId;

verus! {

/// The terms of an escrow as mathematical values.
pub struct Terms {
    pub client: Seq<u8>,
    pub developer: Seq<u8>,
    pub amount: int,
    pub fee_percent: int,
}

/// The two amounts of a release as mathematical values.
pub struct Split {
    pub fee_amount: int,
    pub developer_payout: int,
}

/// The terms an escrow may be created with: two distinct parties, each with a
/// name, an amount that is not negative and a fee rate that is a percentage.
pub open spec fn valid_terms(
    client: Seq<u8>,
    developer: Seq<u8>,
    amount: int,
    fee_percent: int,
) -> bool {
    &&& client.len() > 0
    &&& developer.len() > 0
    &&& client != developer
    &&& 0 <= amount
    &&& 0 <= fee_percent <= 100
}

/// The platform's share of `amount` at `fee_percent` percent, rounded down.
pub open spec fn fee_amount(amount: int, fee_percent: int) -> int {
    amount * fee_percent / 100
}

/// What is left of `amount` for the developer once the fee is taken.
pub open spec fn developer_payout(amount: int, fee_percent: int) -> int {
    amount - fee_amount(amount, fee_percent)
}

impl Terms {
    /// Whether an escrow may be created with these terms.
    pub open spec fn valid(self) -> bool {
        valid_terms(self.client, self.developer, self.amount, self.fee_percent)
    }

    /// The fee and the payout that a release of these terms pays.
    pub open spec fn split(self) -> Split {
        Split {
            fee_amount: fee_amount(self.amount, self.fee_percent),
            developer_payout: developer_payout(self.amount, self.fee_percent),
        }
    }
}

/// The fee is never negative and never more than the amount, and so is the
/// payout.
pub proof fn lemma_split_bounds(amount: int, fee_percent: int)
    requires
        0 <= amount,
        0 <= fee_percent <= 100,
    ensures
        0 <= fee_amount(amount, fee_percent) <= amount,
        0 <= developer_payout(amount, fee_percent) <= amount,
{
    assert(0 <= amount * fee_percent <= amount * 100) by (nonlinear_arith)
        requires
            0 <= amount,
            0 <= fee_percent <= 100,
    ;
}

/// The amounts of a release: what [`EscrowRecord::split`] computes and a
/// successful release reports.
#[derive(Clone, Copy, Debug, PartialEq, Eq, Structural)]
pub struct ReleaseReceipt {
    pub fee_amount: i64,
    pub developer_payout: i64,
}

impl View for ReleaseReceipt {
    type V = Split;

    open spec fn view(&self) -> Split {
        Split {
            fee_amount: self.fee_amount as int,
            developer_payout: self.developer_payout as int,
        }
    }
}

/// The agreed terms of one escrow. A record exists only with valid terms and
/// never changes.
#[derive(Debug, PartialEq, Eq)]
pub struct EscrowRecord {
    client: PartyId,
    developer: PartyId,
    amount: i64,
    fee_percent: i64,
}

impl View for EscrowRecord {
    type V = Terms;

    closed spec fn view(&self) -> Terms {
        Terms {
            client: self.client@,
            developer: self.developer@,
            amount: self.amount as int,
            fee_percent: self.fee_percent as int,
        }
    }
}

impl EscrowRecord {
    /// What holds of every record.
    #[verifier::type_invariant]
    pub open spec fn well_formed(&self) -> bool {
        self@.valid()
    }

    /// The record of the given terms, or `InvalidTerms` where a party has no
    /// name, the two parties are one, the amount is negative or the fee rate
    /// is not within 0 and 100.
    pub fn new(client: PartyId, developer: PartyId, amount: i64, fee_percent: i64) -> (made: Result<
        EscrowRecord,
        EscrowError,
    >)
        ensures
            made is Ok <==> valid_terms(client@, developer@, amount as int, fee_percent as int),
            made matches Ok(record) ==> record@ == (Terms {
                client: client@,
                developer: developer@,
                amount: amount as int,
                fee_percent: fee_percent as int,
            }),
            made matches Err(e) ==> e == EscrowError::InvalidTerms,
    {
        if client.is_empty() || developer.is_empty() || client.same_as(&developer) {
            return Err(EscrowError::InvalidTerms);
        }
        if amount < 0 || fee_percent < 0 || fee_percent > 100 {
            return Err(EscrowError::InvalidTerms);
        }
        Ok(EscrowRecord { client, developer, amount, fee_percent })
    }

    /// The paying party.
    pub fn client(&self) -> (client: &PartyId)
        ensures
            client@ == self@.client,
    {
        &self.client
    }

    /// The receiving party.
    pub fn developer(&self) -> (developer: &PartyId)
        ensures
            developer@ == self@.developer,
    {
        &self.developer
    }

    /// The amount held, in the asset's base unit.
    pub fn amount(&self) -> (amount: i64)
        ensures
            amount == self@.amount,
    {
        self.amount
    }

    /// The platform's share of the amount, in percent.
    pub fn fee_percent(&self) -> (fee_percent: i64)
        ensures
            fee_percent == self@.fee_percent,
    {
        self.fee_percent
    }

    /// The fee and the payout of this record: the fee is the amount times the
    /// fee rate over 100, rounded down, and the payout is the rest.
    pub fn split(&self) -> (receipt: ReleaseReceipt)
        ensures
            receipt@ == self@.split(),
            receipt@.fee_amount + receipt@.developer_payout == self@.amount,
            0 <= receipt@.fee_amount <= self@.amount,
    {
        proof {
            use_type_invariant(self);
            lemma_split_bounds(self@.amount, self@.fee_percent);
        }
        let amount: u128 = self.amount as u128;
        let rate: u128 = self.fee_percent as u128;
        assert(amount * rate <= amount * 100) by (nonlinear_arith)
            requires
                rate <= 100,
        ;
        let fee: u128 = amount * rate / 100;
        let fee_amount: i64 = fee as i64;
        ReleaseReceipt { fee_amount, developer_payout: self.amount - fee_amount }
    }
}

impl Clone for EscrowRecord {
    fn clone(&self) -> (copy: EscrowRecord)
        ensures
            copy@ == self@,
    {
        proof {
            use_type_invariant(self);
        }
        EscrowRecord {
            client: self.client.clone(),
            developer: self.developer.clone(),
            amount: self.amount,
            fee_percent: self.fee_percent,
        }
    }
}

} // verus!
