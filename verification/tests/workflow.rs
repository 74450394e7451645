//! The order workflow, one event at a time.

use order_pipeline::activities::{ActivityError, ChargePayment, OrderActivities, ReserveInventory};
use order_pipeline::deps::Deps;
use order_pipeline::options::{
    compensation_options, inventory_options, payment_options, shipping_options,
};
use order_pipeline::workflow::{
    payment_key, reservation_key, workflow_id, Action, Event, OrderRequest, OrderStatus,
    OrderWorkflow, TASK_QUEUE,
};

fn request(order_id: &str) -> OrderRequest {
    OrderRequest {
        order_id: order_id.to_string(),
        sku: "WIDGET-1".to_string(),
        quantity: 2,
        amount_cents: 4_999,
        parcel_count: 3,
    }
}

/// A workflow that has been started, and the reservation it asked for.
fn started() -> (OrderWorkflow<String>, ReserveInventory) {
    let mut workflow = OrderWorkflow::new(request("ord-1"));
    match workflow.run(Event::Started("order-ord-1".to_string())) {
        Action::ReserveInventory(input, _) => (workflow, input),
        _ => panic!("expected a reservation"),
    }
}

/// A workflow whose stock is reserved, and the charge it asked for.
fn reserved() -> (OrderWorkflow<String>, ChargePayment) {
    let (mut workflow, _) = started();
    match workflow.run(Event::InventoryReserved(Ok("res-1".to_string()))) {
        Action::ChargePayment(input, _) => (workflow, input),
        _ => panic!("expected a charge"),
    }
}

/// A workflow that waits for its shipment.
fn charged() -> OrderWorkflow<String> {
    let (mut workflow, _) = reserved();
    match workflow.run(Event::PaymentCharged(Ok("ch-1".to_string()))) {
        Action::ShipOrder(input, options) => {
            assert_eq!(input.order_id, "ord-1");
            assert_eq!(input.parcel_count, 3);
            assert_eq!(options.heartbeat_secs, Some(5));
            workflow
        }
        _ => panic!("expected a shipment"),
    }
}

fn expect_refund(action: Action<String>) {
    match action {
        Action::RefundPayment(charge_id, options) => {
            assert_eq!(charge_id, "ch-1");
            assert_eq!(options.retry_policy.unwrap().maximum_attempts, 0);
        }
        _ => panic!("expected a refund"),
    }
}

fn expect_release(action: Action<String>) {
    match action {
        Action::ReleaseInventory(reservation_id, options) => {
            assert_eq!(reservation_id, "res-1");
            assert_eq!(options.retry_policy.unwrap().maximum_attempts, 0);
        }
        _ => panic!("expected a release"),
    }
}

fn expect_finish(action: Action<String>) -> Result<String, String> {
    match action {
        Action::Finish(result) => result,
        _ => panic!("expected the end"),
    }
}

#[test]
fn an_order_that_ships_is_completed() {
    let (workflow, input) = started();
    assert_eq!(input.order_id, "ord-1");
    assert_eq!(input.sku, "WIDGET-1");
    assert_eq!(input.quantity, 2);
    assert_eq!(input.idempotency_key, "order-ord-1:reserve");
    assert_eq!(workflow.status(), OrderStatus::Reserving);

    let (workflow, input) = reserved();
    assert_eq!(input.order_id, "ord-1");
    assert_eq!(input.amount_cents, 4_999);
    assert_eq!(input.idempotency_key, "order-ord-1:charge");
    assert_eq!(workflow.status(), OrderStatus::Charging);
    assert_eq!(workflow.charge_id(), None);

    let mut workflow = charged();
    assert_eq!(workflow.status(), OrderStatus::Shipping);
    assert_eq!(workflow.charge_id(), Some("ch-1".to_string()));

    let result = expect_finish(workflow.run(Event::OrderShipped(Ok("3 parcels".to_string()))));
    assert_eq!(result, Ok("3 parcels".to_string()));
    assert_eq!(workflow.status(), OrderStatus::Completed);
}

#[test]
fn a_failed_reservation_ends_the_order_as_it_is() {
    let (mut workflow, _) = started();
    let result = expect_finish(workflow.run(Event::InventoryReserved(Err("none".to_string()))));
    assert_eq!(result, Err("none".to_string()));
    assert_eq!(workflow.status(), OrderStatus::Reserving);
}

#[test]
fn a_failed_charge_releases_the_stock() {
    let (mut workflow, _) = reserved();
    expect_release(workflow.run(Event::PaymentCharged(Err("declined".to_string()))));
    assert_eq!(workflow.status(), OrderStatus::Compensating);
    let result = expect_finish(workflow.run(Event::InventoryReleased(Ok(()))));
    assert_eq!(result, Err("declined".to_string()));
    assert_eq!(workflow.status(), OrderStatus::Failed);
    assert_eq!(workflow.charge_id(), None);
}

#[test]
fn a_failed_shipment_is_undone_in_reverse() {
    let mut workflow = charged();
    expect_refund(workflow.run(Event::OrderShipped(Err("lost".to_string()))));
    assert_eq!(workflow.status(), OrderStatus::Compensating);
    // A failed refund does not keep the stock from being released.
    expect_release(workflow.run(Event::PaymentRefunded(Err("no refund".to_string()))));
    assert_eq!(workflow.status(), OrderStatus::Compensating);
    let result = expect_finish(
        workflow.run(Event::InventoryReleased(Err("no release".to_string()))),
    );
    assert_eq!(result, Err("lost".to_string()));
    assert_eq!(workflow.status(), OrderStatus::Failed);
    assert_eq!(workflow.charge_id(), Some("ch-1".to_string()));
}

#[test]
fn a_cancelled_order_is_refunded_and_released() {
    let (mut workflow, _) = reserved();
    workflow.request_cancel();
    assert_eq!(workflow.status(), OrderStatus::Charging);
    expect_refund(workflow.run(Event::PaymentCharged(Ok("ch-1".to_string()))));
    assert_eq!(workflow.status(), OrderStatus::Compensating);
    assert_eq!(workflow.charge_id(), Some("ch-1".to_string()));
    expect_release(workflow.run(Event::PaymentRefunded(Ok(()))));
    let result = expect_finish(workflow.run(Event::InventoryReleased(Ok(()))));
    assert_eq!(result, Ok("cancelled by request; fully compensated".to_string()));
    assert_eq!(workflow.status(), OrderStatus::Failed);
}

#[test]
fn cancelling_before_the_reservation_is_in_time() {
    let (mut workflow, _) = started();
    workflow.request_cancel();
    workflow.run(Event::InventoryReserved(Ok("res-1".to_string())));
    expect_refund(workflow.run(Event::PaymentCharged(Ok("ch-1".to_string()))));
}

#[test]
fn cancelling_after_the_charge_does_not_excuse_a_failed_shipment() {
    let mut workflow = charged();
    workflow.request_cancel();
    expect_refund(workflow.run(Event::OrderShipped(Err("lost".to_string()))));
    expect_release(workflow.run(Event::PaymentRefunded(Ok(()))));
    let result = expect_finish(workflow.run(Event::InventoryReleased(Ok(()))));
    assert_eq!(result, Err("lost".to_string()));
}

#[test]
fn cancelling_after_the_charge_is_too_late() {
    let mut workflow = charged();
    workflow.request_cancel();
    let result = expect_finish(workflow.run(Event::OrderShipped(Ok("sent".to_string()))));
    assert_eq!(result, Ok("sent".to_string()));
    assert_eq!(workflow.status(), OrderStatus::Completed);
}

#[test]
fn cancelling_does_not_turn_a_failed_charge_into_a_success() {
    let (mut workflow, _) = started();
    workflow.request_cancel();
    workflow.run(Event::InventoryReserved(Ok("res-1".to_string())));
    expect_release(workflow.run(Event::PaymentCharged(Err("declined".to_string()))));
    let result = expect_finish(workflow.run(Event::InventoryReleased(Ok(()))));
    assert_eq!(result, Err("declined".to_string()));
}

#[test]
fn a_workflow_waits_for_one_event_at_a_time() {
    let mut workflow: OrderWorkflow<String> = OrderWorkflow::new(request("ord-1"));
    let start = Event::Started("order-ord-1".to_string());
    let charge = Event::PaymentCharged(Ok("ch-1".to_string()));
    let reserve = Event::InventoryReserved(Err("none".to_string()));
    assert!(workflow.expects(&start));
    assert!(!workflow.expects(&charge));
    workflow.run(start);
    assert!(!workflow.expects(&charge));
    assert!(workflow.expects(&reserve));
    workflow.run(reserve);
    assert!(!workflow.expects(&charge));
    assert!(!workflow.expects(&Event::Started("order-ord-1".to_string())));
}

#[test]
fn ids_and_keys_derive_from_the_order() {
    assert_eq!(TASK_QUEUE, "order-pipeline");
    assert_eq!(workflow_id("ord-1"), "order-ord-1");
    assert_eq!(reservation_key("order-ord-1"), "order-ord-1:reserve");
    assert_eq!(payment_key("order-ord-1"), "order-ord-1:charge");
    assert_ne!(payment_key("order-ord-1"), payment_key("order-ord-2"));
}

#[test]
fn options_are_tuned_per_step() {
    let payment = payment_options();
    assert_eq!(payment.start_to_close_secs, 30);
    assert_eq!(payment.heartbeat_secs, None);
    let policy = payment.retry_policy.unwrap();
    assert_eq!(policy.initial_interval_secs, Some(1));
    assert_eq!(policy.backoff_percent, Some(200));
    assert_eq!(policy.maximum_interval_secs, Some(30));
    assert_eq!(policy.maximum_attempts, 5);
    assert_eq!(policy.non_retryable_error_types, ["CardDeclined"]);

    let inventory = inventory_options();
    assert_eq!(inventory.start_to_close_secs, 10);
    let policy = inventory.retry_policy.unwrap();
    assert_eq!(policy.initial_interval_secs, None);
    assert_eq!(policy.maximum_attempts, 3);
    assert_eq!(policy.non_retryable_error_types, ["OutOfStock"]);

    let shipping = shipping_options();
    assert_eq!(shipping.start_to_close_secs, 300);
    assert_eq!(shipping.heartbeat_secs, Some(5));
    assert!(shipping.retry_policy.is_none());

    let compensation = compensation_options();
    assert_eq!(compensation.start_to_close_secs, 30);
    let policy = compensation.retry_policy.unwrap();
    // Without a limit on the attempts, and with one on the pauses between them.
    assert_eq!(policy.maximum_attempts, 0);
    assert_eq!(policy.maximum_interval_secs, Some(30));
    assert_eq!(policy.initial_interval_secs, None);
    assert_eq!(policy.backoff_percent, None);
    assert!(policy.non_retryable_error_types.is_empty());
}

/// Runs an order to its end, with as many attempts at the charge as the policy
/// for payments allows.
fn settle(
    order_id: &str,
    shipping: Result<String, ActivityError>,
) -> (OrderWorkflow<ActivityError>, OrderActivities, Result<String, ActivityError>) {
    let mut activities = OrderActivities::new(Deps::from_env(None, None));
    let mut workflow = OrderWorkflow::new(request(order_id));
    let mut shipping = Some(shipping);
    let mut event = Event::Started(workflow_id(order_id));
    loop {
        assert!(workflow.expects(&event));
        event = match workflow.run(event) {
            Action::ReserveInventory(input, _) => {
                Event::InventoryReserved(activities.reserve_inventory(&input))
            }
            Action::ChargePayment(input, options) => {
                let attempts = options.retry_policy.unwrap().maximum_attempts;
                let mut outcome = activities.charge_payment(&input);
                for _ in 1..attempts {
                    match &outcome {
                        Err(ActivityError::Application(failure)) if !failure.non_retryable => {
                            outcome = activities.charge_payment(&input);
                        }
                        _ => break,
                    }
                }
                Event::PaymentCharged(outcome)
            }
            Action::ShipOrder(_, _) => Event::OrderShipped(shipping.take().unwrap()),
            Action::RefundPayment(charge_id, _) => {
                Event::PaymentRefunded(activities.refund_payment(&charge_id))
            }
            Action::ReleaseInventory(reservation_id, _) => {
                Event::InventoryReleased(activities.release_inventory(&reservation_id))
            }
            Action::Finish(result) => return (workflow, activities, result),
        };
    }
}

#[test]
fn the_whole_pipeline_completes_an_order() {
    let (workflow, mut activities, result) = settle("ord-1001", Ok("shipped".to_string()));
    assert_eq!(result.unwrap(), "shipped");
    assert_eq!(workflow.status(), OrderStatus::Completed);
    assert_eq!(workflow.charge_id(), Some("ch_4999_order-or".to_string()));
    assert_eq!(
        activities.deps.db.find_charge("order-ord-1001:charge"),
        Some("ch_4999_order-or".to_string())
    );
    assert_eq!(
        activities.deps.db.upsert_reservation("order-ord-1001:reserve", "other"),
        "res_order-ord-1001:reserve"
    );
}

#[test]
fn the_whole_pipeline_rides_out_a_flaky_gateway() {
    let (workflow, activities, result) = settle("ord-flaky-1002", Ok("shipped".to_string()));
    assert!(result.is_ok());
    assert_eq!(workflow.status(), OrderStatus::Completed);
    assert_eq!(activities.deps.payments.call_count(), 3);
}

#[test]
fn the_whole_pipeline_undoes_a_declined_order() {
    let (workflow, mut activities, result) = settle("ord-decline-1003", Ok("shipped".to_string()));
    assert!(result.is_err());
    assert_eq!(workflow.status(), OrderStatus::Failed);
    assert_eq!(activities.deps.payments.call_count(), 1);
    assert_eq!(activities.deps.db.find_charge("order-ord-decline-1003:charge"), None);
    assert_eq!(
        activities.deps.db.upsert_reservation("order-ord-decline-1003:reserve", "free"),
        "free"
    );
}

#[test]
fn the_whole_pipeline_undoes_an_order_that_does_not_ship() {
    let (workflow, mut activities, result) = settle("ord-1004", Err(ActivityError::Cancelled));
    assert!(matches!(result, Err(ActivityError::Cancelled)));
    assert_eq!(workflow.status(), OrderStatus::Failed);
    assert_eq!(
        activities.deps.db.upsert_reservation("order-ord-1004:reserve", "free"),
        "free"
    );
    assert!(activities.deps.db.find_charge("order-ord-1004:charge").is_some());
}

#[test]
fn replaying_the_same_events_goes_on_where_it_stopped() {
    // One process sees the whole history, the other rebuilds the state from the
    // recorded events and goes on from there.
    let mut original = charged();
    let mut rebuilt = charged();
    assert_eq!(original.status(), rebuilt.status());
    assert_eq!(original.charge_id(), rebuilt.charge_id());
    expect_refund(original.run(Event::OrderShipped(Err("lost".to_string()))));
    expect_refund(rebuilt.run(Event::OrderShipped(Err("lost".to_string()))));
    assert_eq!(original.status(), rebuilt.status());
}
