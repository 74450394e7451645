//! The activities against the stand-in services.

use order_pipeline::activities::{
    error_types, payment_failure, reservation_id, shipment_summary, ActivityError, ChargePayment,
    OrderActivities, ReserveInventory, ShipOrder, ShipmentStep,
};
use order_pipeline::deps::{Database, Deps, PaymentError, PaymentGateway};

fn test_activities() -> OrderActivities {
    OrderActivities::new(Deps {
        db: Database::connect("memory://test"),
        payments: PaymentGateway::new("test-key".to_string()),
    })
}

#[test]
fn charges_once_and_returns_a_charge_id() {
    let mut activities = test_activities();

    let charge_id = activities
        .charge_payment(&ChargePayment {
            order_id: "ord-1".into(),
            amount_cents: 4_999,
            idempotency_key: "order-ord-1:charge".into(),
        })
        .expect("charge should succeed");

    assert!(charge_id.starts_with("ch_4999_"));
    assert_eq!(charge_id, "ch_4999_order-or");
    assert_eq!(activities.deps.payments.call_count(), 1);
}

/// What makes a retried activity safe.
#[test]
fn repeated_attempts_with_the_same_key_do_not_double_charge() {
    let mut activities = test_activities();

    let input = ChargePayment {
        order_id: "ord-2".into(),
        amount_cents: 1_200,
        idempotency_key: "order-ord-2:charge".into(),
    };

    // A worker that crashes after the charge: same input, same key, three
    // attempts.
    let first = activities.charge_payment(&input.clone()).unwrap();
    let second = activities.charge_payment(&input.clone()).unwrap();
    let third = activities.charge_payment(&input).unwrap();

    assert_eq!(first, second);
    assert_eq!(second, third);
    // Only the first attempt ever reached the gateway.
    assert_eq!(activities.deps.payments.call_count(), 1);
}

/// A different key is a charge of its own.
#[test]
fn different_keys_produce_different_charges() {
    let mut activities = test_activities();

    let a = activities
        .charge_payment(&ChargePayment {
            order_id: "ord-3".into(),
            amount_cents: 100,
            idempotency_key: "order-ord-3:charge".into(),
        })
        .unwrap();
    let b = activities
        .charge_payment(&ChargePayment {
            order_id: "ord-4".into(),
            amount_cents: 200,
            idempotency_key: "order-ord-4:charge".into(),
        })
        .unwrap();

    assert_ne!(a, b);
    assert_eq!(activities.deps.payments.call_count(), 2);
}

#[test]
fn declined_card_is_non_retryable() {
    let mut activities = test_activities();

    let err = activities
        .charge_payment(&ChargePayment {
            order_id: "ord-decline-5".into(),
            amount_cents: 999,
            idempotency_key: "order-ord-decline-5:charge".into(),
        })
        .expect_err("a declined card must fail");

    let msg = format!("{err:?}");
    assert!(
        msg.contains(error_types::CARD_DECLINED),
        "expected the failure to carry the {} type name, got: {msg}",
        error_types::CARD_DECLINED
    );
    match err {
        ActivityError::Application(failure) => {
            assert!(failure.non_retryable);
            assert_eq!(failure.error_type.as_deref(), Some("CardDeclined"));
            assert_eq!(failure.message, "card declined: insufficient funds");
        }
        ActivityError::Cancelled => panic!("a declined card is no cancellation"),
    }
}

/// Each call is one attempt.
#[test]
fn flaky_gateway_succeeds_on_the_third_attempt() {
    let mut activities = test_activities();

    let input = ChargePayment {
        order_id: "ord-flaky-6".into(),
        amount_cents: 500,
        idempotency_key: "order-ord-flaky-6:charge".into(),
    };

    assert!(activities.charge_payment(&input.clone()).is_err());
    assert!(activities.charge_payment(&input.clone()).is_err());

    let ok = activities
        .charge_payment(&input)
        .expect("third attempt should succeed");
    assert!(ok.starts_with("ch_500_"));
    assert_eq!(activities.deps.payments.call_count(), 3);
}

#[test]
fn zero_quantity_is_rejected_without_touching_the_database() {
    let mut activities = test_activities();

    let err = activities
        .reserve_inventory(&ReserveInventory {
            order_id: "ord-7".into(),
            sku: "WIDGET-1".into(),
            quantity: 0,
            idempotency_key: "order-ord-7:reserve".into(),
        })
        .expect_err("zero quantity must be rejected");

    assert!(matches!(err, ActivityError::Application(_)));

    // The key is still free.
    let stored = activities.deps.db.upsert_reservation("order-ord-7:reserve", "res-2");
    assert_eq!(stored, "res-2");
}

#[test]
fn a_flaky_failure_is_worth_another_attempt() {
    let mut activities = test_activities();
    let err = activities
        .charge_payment(&ChargePayment {
            order_id: "ord-flaky-1".into(),
            amount_cents: 1,
            idempotency_key: "order-ord-flaky-1:charge".into(),
        })
        .unwrap_err();
    match err {
        ActivityError::Application(failure) => {
            assert!(!failure.non_retryable);
            assert_eq!(failure.error_type, None);
            assert_eq!(
                failure.message,
                "payment gateway unavailable: timeout (call 0)"
            );
        }
        ActivityError::Cancelled => panic!("no cancellation"),
    }
}

#[test]
fn payment_errors_are_reported_by_kind() {
    let declined = payment_failure(&PaymentError::Declined("stolen".to_string()));
    assert_eq!(declined.message, "card declined: stolen");
    assert!(declined.non_retryable);
    let unavailable = payment_failure(&PaymentError::Unavailable("down".to_string()));
    assert_eq!(unavailable.message, "payment gateway unavailable: down");
    assert!(!unavailable.non_retryable);
}

#[test]
fn a_reservation_is_made_once_and_can_be_released() {
    let mut activities = test_activities();
    let input = ReserveInventory {
        order_id: "ord-8".into(),
        sku: "WIDGET-1".into(),
        quantity: 2,
        idempotency_key: "order-ord-8:reserve".into(),
    };
    let id = "res_order-ord-8:reserve";
    assert_eq!(activities.reserve_inventory(&input).unwrap(), id);
    assert_eq!(activities.reserve_inventory(&input).unwrap(), id);
    assert!(activities.release_inventory(id).is_ok());
    assert!(activities.release_inventory(id).is_ok());
    assert_eq!(activities.reserve_inventory(&input).unwrap(), id);
}

#[test]
fn a_reservation_on_record_is_kept() {
    let mut activities = test_activities();
    activities.deps.db.upsert_reservation("order-ord-8:reserve", "res_old");
    let input = ReserveInventory {
        order_id: "ord-8".into(),
        sku: "WIDGET-1".into(),
        quantity: 1,
        idempotency_key: "order-ord-8:reserve".into(),
    };
    assert_eq!(activities.reserve_inventory(&input).unwrap(), "res_old");
}

#[test]
fn releasing_one_reservation_keeps_the_others() {
    let mut activities = test_activities();
    let reserve = |order_id: &str| ReserveInventory {
        order_id: order_id.to_string(),
        sku: "WIDGET-1".into(),
        quantity: 1,
        idempotency_key: format!("order-{order_id}:reserve"),
    };
    let one = activities.reserve_inventory(&reserve("ord-1")).unwrap();
    let other = activities.reserve_inventory(&reserve("ord-2")).unwrap();
    assert_ne!(one, other);
    assert!(activities.release_inventory(&one).is_ok());
    assert_eq!(
        activities.deps.db.upsert_reservation("order-ord-2:reserve", "free"),
        other
    );
    assert_eq!(
        activities.deps.db.upsert_reservation("order-ord-1:reserve", "free"),
        "free"
    );
}

#[test]
fn different_keys_have_different_reservation_ids() {
    assert_eq!(reservation_id("order-ord-1:reserve"), "res_order-ord-1:reserve");
    assert_eq!(reservation_id(""), "res_");
    assert_ne!(reservation_id("order-ord-1:reserve"), reservation_id("order-ord-2:reserve"));
}

#[test]
fn a_shipment_is_summed_up() {
    let summary = |parcel_count: u32| {
        shipment_summary(&ShipOrder {
            order_id: "ord-1".into(),
            parcel_count,
        })
    };
    assert_eq!(summary(3), "order ord-1 shipped in 3 parcel(s)");
    assert_eq!(summary(0), "order ord-1 shipped in 0 parcel(s)");
    assert_eq!(summary(u32::MAX), "order ord-1 shipped in 4294967295 parcel(s)");
}

#[test]
fn a_recorded_charge_outlives_a_refund() {
    let mut activities = test_activities();
    let input = ChargePayment {
        order_id: "ord-9".into(),
        amount_cents: 70,
        idempotency_key: "order-ord-9:charge".into(),
    };
    let charge_id = activities.charge_payment(&input).unwrap();
    assert!(activities.refund_payment(&charge_id).is_ok());
    assert_eq!(activities.charge_payment(&input).unwrap(), charge_id);
    assert_eq!(activities.deps.payments.call_count(), 1);
}

#[test]
fn only_a_new_charge_needs_a_key_that_can_be_cut() {
    let mut activities = test_activities();
    // The eighth byte falls inside the euro sign.
    let mut input = ChargePayment {
        order_id: "ord-10".into(),
        amount_cents: 5,
        idempotency_key: "1234567\u{20ac}".into(),
    };
    assert!(!activities.can_charge(&input));
    input.order_id = "ord-decline-10".into();
    assert!(activities.can_charge(&input));
    assert!(activities.charge_payment(&input).is_err());
    activities.deps.db.upsert_charge("1234567\u{20ac}", "ch_old");
    input.order_id = "ord-10".into();
    assert!(activities.can_charge(&input));
    assert_eq!(activities.charge_payment(&input).unwrap(), "ch_old");
}

#[test]
fn a_shipment_resumes_from_its_heartbeat() {
    let input = ShipOrder {
        order_id: "ord-11".into(),
        parcel_count: 3,
    };
    let mut first = OrderActivities::ship_order(&input, None);
    assert_eq!(first.step(false), ShipmentStep::Ship(0));
    let heartbeat = first.parcel_sent();
    assert_eq!(heartbeat, 1);

    let mut second = OrderActivities::ship_order(&input, Some(heartbeat));
    assert_eq!(second.step(false), ShipmentStep::Ship(1));
    assert_eq!(second.parcel_sent(), 2);
    assert_eq!(second.step(true), ShipmentStep::Cancelled);
    assert_eq!(second.step(false), ShipmentStep::Ship(2));
    assert_eq!(second.parcel_sent(), 3);
    // With nothing left to ship, a cancellation comes too late.
    assert_eq!(second.step(true), ShipmentStep::Done);
}

#[test]
fn a_shipment_of_nothing_is_done() {
    let input = ShipOrder {
        order_id: "ord-12".into(),
        parcel_count: 0,
    };
    assert_eq!(OrderActivities::ship_order(&input, None).step(false), ShipmentStep::Done);
    assert_eq!(OrderActivities::ship_order(&input, Some(4)).step(true), ShipmentStep::Done);
}
