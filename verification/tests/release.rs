use escrow::{
    EscrowContract, EscrowError, Leg, Lifecycle, PartyId, ReleaseEvent, ReleaseReceipt,
    ReleaseStep, TransferError, TransferOrder,
};

fn party(name: &str) -> PartyId {
    PartyId::new(name.as_bytes().to_vec())
}

fn created(amount: i64, fee_percent: i64) -> EscrowContract {
    let mut escrow = EscrowContract::new();
    assert_eq!(
        escrow.create_escrow(party("client"), party("developer"), amount, fee_percent),
        Ok(())
    );
    escrow
}

/// Runs a release to its end: carries out each ordered transfer with
/// `transfer` and reports its outcome.
fn release(
    escrow: &mut EscrowContract,
    transfer: &mut dyn FnMut(&TransferOrder) -> Result<(), TransferError>,
) -> Result<ReleaseReceipt, EscrowError> {
    let mut event = ReleaseEvent::Requested;
    loop {
        match escrow.release_payment(event) {
            ReleaseStep::Finished(result) => return result,
            ReleaseStep::Dispatch(order) => {
                let outcome = transfer(&order);
                event = ReleaseEvent::Settled { leg: order.leg(), outcome };
            }
        }
    }
}

#[test]
fn release_pays_fee_then_payout() {
    let mut escrow = created(1000, 10);
    let mut sent: Vec<(Leg, PartyId, i64)> = Vec::new();
    let receipt = release(&mut escrow, &mut |order| {
        sent.push((order.leg(), order.recipient().clone(), order.amount()));
        Ok(())
    });
    assert_eq!(receipt, Ok(ReleaseReceipt { fee_amount: 100, developer_payout: 900 }));
    assert_eq!(
        sent,
        vec![(Leg::Fee, party("client"), 100), (Leg::Payout, party("developer"), 900)]
    );
    assert_eq!(escrow.lifecycle(), Lifecycle::Released);
}

#[test]
fn ten_percent_of_a_thousand() {
    let mut escrow = created(1000, 10);
    let receipt = release(&mut escrow, &mut |_| Ok(())).unwrap();
    assert_eq!(receipt.fee_amount, 100);
    assert_eq!(receipt.developer_payout, 900);
}

#[test]
fn half_of_one_rounds_the_fee_down() {
    let mut escrow = created(1, 50);
    let receipt = release(&mut escrow, &mut |_| Ok(())).unwrap();
    assert_eq!(receipt.fee_amount, 0);
    assert_eq!(receipt.developer_payout, 1);
}

#[test]
fn receipt_adds_up_to_the_amount() {
    for amount in [0i64, 1, 2, 3, 7, 99, 100, 101, 999, 12_345, i64::MAX - 1, i64::MAX] {
        for fee_percent in [0i64, 1, 33, 50, 99, 100] {
            let mut escrow = created(amount, fee_percent);
            let receipt = release(&mut escrow, &mut |_| Ok(())).unwrap();
            assert_eq!(
                receipt.fee_amount as i128 + receipt.developer_payout as i128,
                amount as i128
            );
            assert_eq!(
                receipt.fee_amount as i128,
                amount as i128 * fee_percent as i128 / 100
            );
            assert!(receipt.fee_amount >= 0 && receipt.developer_payout >= 0);
        }
    }
}

#[test]
fn largest_amount_does_not_overflow() {
    let mut escrow = created(i64::MAX, 100);
    let receipt = release(&mut escrow, &mut |_| Ok(())).unwrap();
    assert_eq!(receipt, ReleaseReceipt { fee_amount: i64::MAX, developer_payout: 0 });

    let mut escrow = created(i64::MAX, 99);
    let receipt = release(&mut escrow, &mut |_| Ok(())).unwrap();
    assert_eq!(receipt.fee_amount, 9_131_138_316_486_228_048);
    assert_eq!(receipt.developer_payout, 92_233_720_368_547_759);
}

#[test]
fn zero_amount_and_zero_fee() {
    let mut escrow = created(0, 10);
    assert_eq!(
        release(&mut escrow, &mut |_| Ok(())),
        Ok(ReleaseReceipt { fee_amount: 0, developer_payout: 0 })
    );
    let mut escrow = created(500, 0);
    assert_eq!(
        release(&mut escrow, &mut |_| Ok(())),
        Ok(ReleaseReceipt { fee_amount: 0, developer_payout: 500 })
    );
}

#[test]
fn release_before_create_is_refused() {
    let mut escrow = EscrowContract::new();
    let mut calls = 0;
    let result = release(&mut escrow, &mut |_| {
        calls += 1;
        Ok(())
    });
    assert_eq!(result, Err(EscrowError::NotInitialized));
    assert_eq!(calls, 0);
    assert_eq!(escrow.lifecycle(), Lifecycle::Uninitialized);
}

#[test]
fn every_event_before_create_is_refused() {
    let events = [
        ReleaseEvent::Requested,
        ReleaseEvent::Settled { leg: Leg::Fee, outcome: Ok(()) },
        ReleaseEvent::Settled { leg: Leg::Payout, outcome: Ok(()) },
        ReleaseEvent::Settled { leg: Leg::Fee, outcome: Err(TransferError::Aborted) },
        ReleaseEvent::Settled { leg: Leg::Payout, outcome: Err(TransferError::Rejected(3)) },
    ];
    for event in events {
        let mut escrow = EscrowContract::new();
        assert_eq!(
            escrow.release_payment(event),
            ReleaseStep::Finished(Err(EscrowError::NotInitialized))
        );
        assert_eq!(escrow, EscrowContract::new());
    }
}

#[test]
fn second_release_is_refused() {
    let mut escrow = created(1000, 10);
    let mut calls = 0;
    assert!(release(&mut escrow, &mut |_| {
        calls += 1;
        Ok(())
    })
    .is_ok());
    assert_eq!(calls, 2);
    let again = release(&mut escrow, &mut |_| {
        calls += 1;
        Ok(())
    });
    assert_eq!(again, Err(EscrowError::AlreadyReleased));
    assert_eq!(calls, 2);
    assert_eq!(escrow.lifecycle(), Lifecycle::Released);
}

#[test]
fn every_event_after_release_is_refused() {
    let events = [
        ReleaseEvent::Requested,
        ReleaseEvent::Settled { leg: Leg::Fee, outcome: Ok(()) },
        ReleaseEvent::Settled { leg: Leg::Payout, outcome: Ok(()) },
        ReleaseEvent::Settled { leg: Leg::Payout, outcome: Err(TransferError::Aborted) },
    ];
    for event in events {
        let mut escrow = created(40, 25);
        assert!(release(&mut escrow, &mut |_| Ok(())).is_ok());
        assert_eq!(
            escrow.release_payment(event),
            ReleaseStep::Finished(Err(EscrowError::AlreadyReleased))
        );
        assert_eq!(escrow.lifecycle(), Lifecycle::Released);
    }
}

#[test]
fn failed_fee_leg_leaves_escrow_created() {
    let mut escrow = created(1000, 10);
    let mut calls = 0;
    let result = release(&mut escrow, &mut |_| {
        calls += 1;
        Err(TransferError::Aborted)
    });
    assert_eq!(
        result,
        Err(EscrowError::TransferFailed { leg: Leg::Fee, cause: TransferError::Aborted })
    );
    assert_eq!(calls, 1);
    assert_eq!(escrow.lifecycle(), Lifecycle::Created);

    let retried = release(&mut escrow, &mut |_| Ok(()));
    assert_eq!(retried, Ok(ReleaseReceipt { fee_amount: 100, developer_payout: 900 }));
    assert_eq!(escrow.lifecycle(), Lifecycle::Released);
}

#[test]
fn failed_payout_leg_is_told_apart() {
    let mut escrow = created(1000, 10);
    let mut legs: Vec<Leg> = Vec::new();
    let result = release(&mut escrow, &mut |order| {
        legs.push(order.leg());
        match order.leg() {
            Leg::Fee => Ok(()),
            Leg::Payout => Err(TransferError::Rejected(7)),
        }
    });
    assert_eq!(
        result,
        Err(EscrowError::TransferFailed { leg: Leg::Payout, cause: TransferError::Rejected(7) })
    );
    assert_eq!(legs, vec![Leg::Fee, Leg::Payout]);
    assert_eq!(escrow.lifecycle(), Lifecycle::Created);
    assert_eq!(escrow.read().unwrap().amount(), 1000);
}

#[test]
fn steps_follow_the_events() {
    let mut escrow = created(250, 20);
    match escrow.release_payment(ReleaseEvent::Requested) {
        ReleaseStep::Dispatch(order) => {
            assert_eq!(order.leg(), Leg::Fee);
            assert_eq!(order.recipient(), &party("client"));
            assert_eq!(order.amount(), 50);
            assert_eq!(order.payload(), 50u64);
        }
        other => panic!("{:?}", other),
    }
    assert_eq!(escrow.lifecycle(), Lifecycle::Created);
    match escrow.release_payment(ReleaseEvent::Settled { leg: Leg::Fee, outcome: Ok(()) }) {
        ReleaseStep::Dispatch(order) => {
            assert_eq!(order.leg(), Leg::Payout);
            assert_eq!(order.recipient(), &party("developer"));
            assert_eq!(order.amount(), 200);
            assert_eq!(order.payload(), 200u64);
        }
        other => panic!("{:?}", other),
    }
    assert_eq!(escrow.lifecycle(), Lifecycle::Created);
    assert_eq!(
        escrow.release_payment(ReleaseEvent::Settled { leg: Leg::Payout, outcome: Ok(()) }),
        ReleaseStep::Finished(Ok(ReleaseReceipt { fee_amount: 50, developer_payout: 200 }))
    );
    assert_eq!(escrow.lifecycle(), Lifecycle::Released);
}

#[test]
fn order_for_each_leg() {
    let escrow = created(i64::MAX, 1);
    let record = escrow.read().unwrap();
    let fee = TransferOrder::for_leg(&record, Leg::Fee);
    let payout = TransferOrder::for_leg(&record, Leg::Payout);
    assert_eq!(fee.amount(), 92_233_720_368_547_758);
    assert_eq!(fee.payload(), 92_233_720_368_547_758u64);
    assert_eq!(payout.amount(), i64::MAX - 92_233_720_368_547_758);
    assert_eq!(fee.recipient().as_bytes(), &b"client".to_vec());
    assert_eq!(payout.recipient().as_bytes(), &b"developer".to_vec());
}
