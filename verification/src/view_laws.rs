//! What the models show: every field of a value, and all of each text.

use vstd::prelude::*;

use crate::activities::{
    ActivityError, ActivityErrorView, ActivityFailure, ChargePayment, ReserveInventory, ShipOrder,
};
use crate::deps::{Deps, PaymentError, PaymentErrorView};
use crate::options::{ActivityOptions, RetryPolicy};
use crate::workflow::{Action, ActionView, Event, EventView, OrderRequest};

verus! {

/// The model of an order and of what is asked of an activity shows every field
/// as it is, and all of each text.
pub proof fn inputs_are_shown_in_full(
    request: OrderRequest,
    reservation: ReserveInventory,
    charge: ChargePayment,
    shipment: ShipOrder,
)
    ensures
        request@.order_id == request.order_id@,
        request@.sku == request.sku@,
        request@.quantity == request.quantity,
        request@.amount_cents == request.amount_cents,
        request@.parcel_count == request.parcel_count,
        reservation@.order_id == reservation.order_id@,
        reservation@.sku == reservation.sku@,
        reservation@.quantity == reservation.quantity,
        reservation@.idempotency_key == reservation.idempotency_key@,
        charge@.order_id == charge.order_id@,
        charge@.amount_cents == charge.amount_cents,
        charge@.idempotency_key == charge.idempotency_key@,
        shipment@.order_id == shipment.order_id@,
        shipment@.parcel_count == shipment.parcel_count,
{
}

/// The model of a failure shows its message, its type if it has one, and whether
/// it is final.
pub proof fn failures_are_shown_in_full(failure: ActivityFailure, reason: String)
    ensures
        failure@.message == failure.message@,
        failure@.non_retryable == failure.non_retryable,
        failure@.error_type is Some <==> failure.error_type is Some,
        failure.error_type matches Some(name) ==> failure@.error_type == Some(name@),
        ActivityError::Application(failure)@ == ActivityErrorView::Application(failure@),
        ActivityError::Cancelled@ == ActivityErrorView::Cancelled,
        PaymentError::Declined(reason)@ == PaymentErrorView::Declined(reason@),
        PaymentError::Unavailable(reason)@ == PaymentErrorView::Unavailable(reason@),
{
}

/// The model of an outcome shows the whole text of a success and the error of a
/// failure, and never takes the one for the other.
pub proof fn outcomes_are_shown_in_full<E>(
    text: String,
    error: E,
    activity_error: ActivityError,
    payment_error: PaymentError,
)
    ensures
        crate::workflow::outcome_view(Ok::<String, E>(text)) == Ok::<Seq<char>, E>(text@),
        crate::workflow::outcome_view(Err::<String, E>(error)) == Err::<Seq<char>, E>(error),
        crate::workflow::text_view(Some(text)) == Some(text@),
        crate::workflow::text_view(None) is None,
        crate::activities::activity_result_view(Ok(text)) == Ok::<Seq<char>, ActivityErrorView>(
            text@,
        ),
        crate::activities::activity_result_view(Err(activity_error)) == Err::<
            Seq<char>,
            ActivityErrorView,
        >(activity_error@),
        crate::deps::charge_result_view(Ok(text)) == Ok::<Seq<char>, PaymentErrorView>(text@),
        crate::deps::charge_result_view(Err(payment_error)) == Err::<Seq<char>, PaymentErrorView>(
            payment_error@,
        ),
{
}

/// The model of an event shows which event it is and what it reports.
pub proof fn events_are_shown_in_full<E>(
    text: String,
    outcome: Result<String, E>,
    done: Result<(), E>,
)
    ensures
        Event::<E>::Started(text)@ == EventView::<E>::Started(text@),
        Event::InventoryReserved(outcome)@ == EventView::InventoryReserved(
            crate::workflow::outcome_view(outcome),
        ),
        Event::PaymentCharged(outcome)@ == EventView::PaymentCharged(
            crate::workflow::outcome_view(outcome),
        ),
        Event::OrderShipped(outcome)@ == EventView::OrderShipped(
            crate::workflow::outcome_view(outcome),
        ),
        Event::PaymentRefunded(done)@ == EventView::PaymentRefunded(done),
        Event::InventoryReleased(done)@ == EventView::InventoryReleased(done),
{
}

/// The model of an action shows which action it is, what it is about and how it
/// is run.
pub proof fn actions_are_shown_in_full<E>(
    reservation: ReserveInventory,
    charge: ChargePayment,
    shipment: ShipOrder,
    id: String,
    options: ActivityOptions,
    outcome: Result<String, E>,
)
    ensures
        Action::<E>::ReserveInventory(reservation, options)@ == ActionView::<E>::ReserveInventory(
            reservation@,
            options@,
        ),
        Action::<E>::ChargePayment(charge, options)@ == ActionView::<E>::ChargePayment(
            charge@,
            options@,
        ),
        Action::<E>::ShipOrder(shipment, options)@ == ActionView::<E>::ShipOrder(
            shipment@,
            options@,
        ),
        Action::<E>::RefundPayment(id, options)@ == ActionView::<E>::RefundPayment(id@, options@),
        Action::<E>::ReleaseInventory(id, options)@ == ActionView::<E>::ReleaseInventory(
            id@,
            options@,
        ),
        Action::Finish(outcome)@ == ActionView::Finish(crate::workflow::outcome_view(outcome)),
{
}

/// The model of activity options shows every setting, and of the types that are
/// not tried again each one in full.
pub proof fn options_are_shown_in_full(options: ActivityOptions, policy: RetryPolicy)
    ensures
        options@.start_to_close_secs == options.start_to_close_secs,
        options@.heartbeat_secs == options.heartbeat_secs,
        options@.retry_policy is Some <==> options.retry_policy is Some,
        options.retry_policy matches Some(own) ==> options@.retry_policy == Some(own@),
        policy@.initial_interval_secs == policy.initial_interval_secs,
        policy@.backoff_percent == policy.backoff_percent,
        policy@.maximum_interval_secs == policy.maximum_interval_secs,
        policy@.maximum_attempts == policy.maximum_attempts,
        policy@.non_retryable_error_types.len() == policy.non_retryable_error_types@.len(),
        forall|i: int|
            0 <= i < policy.non_retryable_error_types@.len() ==> #[trigger]
            policy@.non_retryable_error_types[i] == policy.non_retryable_error_types@[i]@,
{
}

/// The model of the dependencies shows the database and the gateway.
pub proof fn dependencies_are_shown_in_full(deps: Deps)
    ensures
        deps@.db == deps.db@,
        deps@.payments == deps.payments@,
{
}

} // verus!
