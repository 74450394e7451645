//! What holds of charges, reservations, shipments and retries over any number of
//! attempts.

use vstd::prelude::*;
use vstd::utf8::*;

use crate::activities::{
    error_types, ActivityErrorView, ActivityFailureView, ChargePaymentView, ReserveInventoryView,
    ShipOrderView, Shipment,
};
use crate::deps::{
    DatabaseView, DepsView, GatewayView, PaymentErrorView, FLAKY_FAILURES, KEY_PREFIX_BYTES,
};
use crate::options::RetryPolicyView;

verus! {

// ---------------------------------------------------------------------------
// Tables
// ---------------------------------------------------------------------------

/// The first write under a key wins: the same key written again keeps what it
/// has, and reading it back gives what was written first. No other key is
/// touched.
pub proof fn first_write_wins(
    table: Map<Seq<char>, Seq<char>>,
    key: Seq<char>,
    first: Seq<char>,
    second: Seq<char>,
)
    ensures
        crate::table::with_default(
            crate::table::with_default(table, key, first),
            key,
            second,
        ) == crate::table::with_default(table, key, first),
        !table.contains_key(key) ==> crate::table::with_default(table, key, first)[key] == first,
        table.submap_of(crate::table::with_default(table, key, first)),
        forall|other: Seq<char>|
            other != key ==> (#[trigger] crate::table::with_default(table, key, first).contains_key(
                other,
            ) <==> table.contains_key(other)),
{
}

/// Deleting a value leaves no row with it and every other row as it is, and
/// deleting it again changes nothing.
pub proof fn deleting_twice_is_deleting_once(
    table: Map<Seq<char>, Seq<char>>,
    value: Seq<char>,
)
    ensures
        crate::table::without_value(crate::table::without_value(table, value), value)
            == crate::table::without_value(table, value),
        !crate::table::without_value(table, value).contains_value(value),
        forall|key: Seq<char>|
            table.contains_key(key) && table[key] != value ==> (
            #[trigger] crate::table::without_value(table, value).contains_key(key)
                && crate::table::without_value(table, value)[key] == table[key]),
{
    let once = crate::table::without_value(table, value);
    assert(crate::table::without_value(once, value) =~= once);
}

// ---------------------------------------------------------------------------
// Attempts
// ---------------------------------------------------------------------------

/// One attempt at an activity that touches the dependencies.
pub enum Attempt {
    Reserve(ReserveInventoryView),
    Charge(ChargePaymentView),
    Release(Seq<char>),
    /// A refund leaves no trace.
    Refund(Seq<char>),
}

impl DepsView {
    /// The dependencies after one attempt.
    pub open spec fn after(self, attempt: Attempt) -> DepsView {
        match attempt {
            Attempt::Reserve(input) => self.after_reserve_inventory(input),
            Attempt::Charge(input) => self.after_charge_payment(input),
            Attempt::Release(reservation_id) => self.after_release_inventory(reservation_id),
            Attempt::Refund(_) => self,
        }
    }
}

/// The dependencies after any number of attempts.
pub open spec fn after_all(deps: DepsView, attempts: Seq<Attempt>) -> DepsView
    decreases attempts.len(),
{
    if attempts.len() == 0 {
        deps
    } else {
        after_all(deps, attempts.drop_last()).after(attempts.last())
    }
}

/// A recorded charge stays as it is, whatever is attempted next.
pub proof fn recorded_charges_are_permanent(deps: DepsView, attempts: Seq<Attempt>)
    ensures
        deps.db.charges.submap_of(after_all(deps, attempts).db.charges),
    decreases attempts.len(),
{
    if attempts.len() > 0 {
        recorded_charges_are_permanent(deps, attempts.drop_last());
    }
}

/// Attempts under one key charge once: when one has succeeded, every later one
/// answers with the same charge and leaves everything as it is, the gateway
/// included, whatever was attempted in between.
pub proof fn repeated_attempts_charge_once(
    deps: DepsView,
    first: ChargePaymentView,
    between: Seq<Attempt>,
    again: ChargePaymentView,
)
    requires
        deps.can_charge(first),
        deps.charge_payment_result(first) is Ok,
        again.idempotency_key == first.idempotency_key,
    ensures
        ({
            let later = after_all(deps.after_charge_payment(first), between);
            &&& later.charge_payment_result(again) == deps.charge_payment_result(first)
            &&& later.after_charge_payment(again) == later
            &&& later.can_charge(again)
        }),
{
    recorded_charges_are_permanent(deps.after_charge_payment(first), between);
    assert(deps.after_charge_payment(first).db.charges.contains_key(first.idempotency_key));
}

/// A worker may die between the charge and its record. The next attempt then
/// reaches the gateway again, which answers with the same charge id, and the
/// record ends up the same. A flaky order is excepted at the moment when the
/// counter starts over.
pub proof fn dying_before_the_record_does_no_harm(deps: DepsView, input: ChargePaymentView)
    requires
        !deps.db.charges.contains_key(input.idempotency_key),
        deps.payments.grants(input.order_id),
        deps.can_charge(input),
        crate::deps::is_flaky(input.order_id) ==> deps.payments.attempts < u32::MAX,
    ensures
        ({
            let unrecorded = DepsView {
                payments: deps.payments.after_charge(input.order_id),
                ..deps
            };
            &&& unrecorded.can_charge(input)
            &&& unrecorded.charge_payment_result(input) == deps.charge_payment_result(input)
            &&& unrecorded.after_charge_payment(input).db == deps.after_charge_payment(input).db
        }),
{
}

/// A new key is a charge of its own: it reaches the gateway, exactly once,
/// whatever other keys have been charged.
pub proof fn a_new_key_reaches_the_gateway(deps: DepsView, input: ChargePaymentView)
    requires
        !deps.db.charges.contains_key(input.idempotency_key),
    ensures
        deps.after_charge_payment(input).payments == deps.payments.after_charge(input.order_id),
        deps.after_charge_payment(input).payments.calls == crate::deps::counted(
            deps.payments.calls,
        ),
{
}

/// The gateway is called once at most by an attempt to charge, and by no other
/// attempt.
pub proof fn only_charging_calls_the_gateway(deps: DepsView, attempt: Attempt)
    ensures
        deps.after(attempt).payments != deps.payments ==> (attempt matches Attempt::Charge(input)
            && !deps.db.charges.contains_key(input.idempotency_key)
            && deps.after(attempt).payments.calls == crate::deps::counted(deps.payments.calls)),
{
}

/// A failed charge leaves the database as it is, and so does a reservation of
/// nothing.
pub proof fn failures_leave_the_database_alone(
    deps: DepsView,
    charge: ChargePaymentView,
    reservation: ReserveInventoryView,
)
    ensures
        deps.charge_payment_result(charge) is Err ==> deps.after_charge_payment(charge).db
            == deps.db,
        deps.reserve_inventory_result(reservation) is Err ==> deps.after_reserve_inventory(
            reservation,
        ) == deps,
        deps.reserve_inventory_result(reservation) is Err <==> reservation.quantity == 0,
{
}

/// Attempts under one key reserve once: a later one answers with the same
/// reservation and leaves everything as it is.
pub proof fn repeated_attempts_reserve_once(
    deps: DepsView,
    first: ReserveInventoryView,
    again: ReserveInventoryView,
)
    requires
        first.quantity == 0 <==> again.quantity == 0,
        again.idempotency_key == first.idempotency_key,
    ensures
        deps.after_reserve_inventory(first).reserve_inventory_result(again)
            == deps.reserve_inventory_result(first),
        deps.after_reserve_inventory(first).after_reserve_inventory(again)
            == deps.after_reserve_inventory(first),
{
}

/// Reservations have the same id exactly if they have the same key.
pub proof fn different_keys_give_different_reservation_ids(one: Seq<char>, other: Seq<char>)
    ensures
        crate::activities::reservation_id_for(one) == crate::activities::reservation_id_for(other)
            <==> one == other,
{
    let prefix = "res_"@;
    if prefix + one == prefix + other {
        assert(one =~= (prefix + one).skip(prefix.len() as int));
        assert(other =~= (prefix + other).skip(prefix.len() as int));
    }
}

/// Whether every reservation on record has the id of its key.
pub open spec fn ids_follow_keys(db: DatabaseView) -> bool {
    forall|key: Seq<char>| #[trigger]
        db.reservations.contains_key(key) ==> db.reservations[key]
            == crate::activities::reservation_id_for(key)
}

/// In a database that only activities write to, every reservation has the id of
/// its key: that holds of an empty one, and whatever is attempted keeps it.
pub proof fn reservation_ids_follow_their_keys(
    url: Seq<char>,
    deps: DepsView,
    attempts: Seq<Attempt>,
)
    ensures
        ids_follow_keys(crate::deps::empty_database(url)),
        ids_follow_keys(deps.db) ==> ids_follow_keys(after_all(deps, attempts).db),
    decreases attempts.len(),
{
    if attempts.len() > 0 {
        reservation_ids_follow_their_keys(url, deps, attempts.drop_last());
        let before = after_all(deps, attempts.drop_last());
        let after = before.after(attempts.last());
        if ids_follow_keys(before.db) {
            assert forall|key: Seq<char>| #[trigger]
                after.db.reservations.contains_key(key) implies after.db.reservations[key]
                == crate::activities::reservation_id_for(key) by {
                if before.db.reservations.contains_key(key) {
                    assert(after.db.reservations[key] == before.db.reservations[key]);
                }
            }
        }
    }
}

/// A reservation that was released is gone, and releasing it again changes
/// nothing.
pub proof fn releasing_twice_is_releasing_once(deps: DepsView, reservation_id: Seq<char>)
    ensures
        !deps.after_release_inventory(reservation_id).db.reservations.contains_value(
            reservation_id,
        ),
        deps.after_release_inventory(reservation_id).after_release_inventory(reservation_id)
            == deps.after_release_inventory(reservation_id),
{
    deleting_twice_is_deleting_once(deps.db.reservations, reservation_id);
}

/// Releasing what was just reserved under a new key restores the dependencies:
/// no other reservation has that id.
pub proof fn releasing_undoes_reserving(deps: DepsView, input: ReserveInventoryView)
    requires
        ids_follow_keys(deps.db),
        !deps.db.reservations.contains_key(input.idempotency_key),
    ensures
        deps.after_reserve_inventory(input).after_release_inventory(
            crate::activities::reservation_id_for(input.idempotency_key),
        ) == deps,
{
    let id = crate::activities::reservation_id_for(input.idempotency_key);
    let released = deps.after_reserve_inventory(input).after_release_inventory(id);
    assert forall|key: Seq<char>| #[trigger]
        deps.db.reservations.contains_key(key) implies deps.db.reservations[key] != id by {
        different_keys_give_different_reservation_ids(key, input.idempotency_key);
    }
    assert(released.db.reservations =~= deps.db.reservations);
}

// ---------------------------------------------------------------------------
// Single attempts
// ---------------------------------------------------------------------------

/// Reserving answers with what is on record under the key, or else with "res_"
/// and the whole key, which is then on record. No other reservation, no charge
/// and nothing of the gateway changes.
pub proof fn a_reservation_is_looked_up_or_made(
    deps: DepsView,
    input: ReserveInventoryView,
    other: Seq<char>,
)
    requires
        input.quantity > 0,
    ensures
        ({
            let key = input.idempotency_key;
            let after = deps.after_reserve_inventory(input);
            &&& deps.reserve_inventory_result(input) matches Ok(id) && {
                &&& after.db.reservations.contains_key(key) && after.db.reservations[key] == id
                &&& deps.db.reservations.contains_key(key) ==> id == deps.db.reservations[key]
                &&& !deps.db.reservations.contains_key(key) ==> crate::text_laws::frames(
                    id,
                    "res_"@,
                    key,
                    Seq::empty(),
                )
            }
            &&& other != key ==> (after.db.reservations.contains_key(other)
                <==> deps.db.reservations.contains_key(other))
            &&& other != key ==> after.db.reservations[other] == deps.db.reservations[other]
            &&& after.db.charges == deps.db.charges
            &&& after.db.url == deps.db.url
            &&& after.payments == deps.payments
        }),
{
}

/// A reservation of nothing is refused for good: the failure is final in itself
/// and carries no type, so the policy for reservations never tries it again,
/// and nothing changes.
pub proof fn a_reservation_of_nothing_is_not_retried(
    deps: DepsView,
    input: ReserveInventoryView,
    attempts: nat,
)
    requires
        input.quantity == 0,
    ensures
        deps.reserve_inventory_result(input) matches Err(ActivityErrorView::Application(failure))
            && {
            &&& failure.non_retryable
            &&& failure.error_type is None
            &&& failure.message == "quantity must be greater than zero"@
            &&& !crate::options::inventory_policy().retries(failure, attempts)
        },
        deps.after_reserve_inventory(input) == deps,
{
}

/// Releasing takes every reservation with that id off the record and leaves
/// every other one, the charges and the gateway as they are.
pub proof fn a_release_touches_one_reservation(
    deps: DepsView,
    reservation_id: Seq<char>,
    key: Seq<char>,
)
    ensures
        ({
            let after = deps.after_release_inventory(reservation_id);
            &&& after.db.reservations.contains_key(key) <==> deps.db.reservations.contains_key(key)
                && deps.db.reservations[key] != reservation_id
            &&& after.db.reservations.contains_key(key) ==> after.db.reservations[key]
                == deps.db.reservations[key]
            &&& after.db.charges == deps.db.charges
            &&& after.db.url == deps.db.url
            &&& after.payments == deps.payments
        }),
{
}

/// Charging answers with what is on record under the key, and then does nothing
/// else. Otherwise the gateway is asked, with the order, the amount and the key
/// as they are: what it grants goes on record under the key, and what it refuses
/// leaves the record alone. No other charge and no reservation changes.
pub proof fn a_charge_is_looked_up_or_made(
    deps: DepsView,
    input: ChargePaymentView,
    other: Seq<char>,
)
    ensures
        ({
            let key = input.idempotency_key;
            let result = deps.charge_payment_result(input);
            let after = deps.after_charge_payment(input);
            let answer = deps.payments.charge_result(input.order_id, input.amount_cents, key);
            &&& deps.db.charges.contains_key(key) ==> {
                &&& result == Ok::<Seq<char>, ActivityErrorView>(deps.db.charges[key])
                &&& after == deps
            }
            &&& !deps.db.charges.contains_key(key) ==> {
                &&& after.payments == deps.payments.after_charge(input.order_id)
                &&& result is Ok <==> answer is Ok
                &&& answer matches Ok(id) ==> result == Ok::<Seq<char>, ActivityErrorView>(id)
                    && after.db.charges.contains_key(key) && after.db.charges[key] == id
                &&& answer is Err ==> after.db == deps.db
            }
            &&& other != key ==> (after.db.charges.contains_key(other)
                <==> deps.db.charges.contains_key(other))
            &&& other != key ==> after.db.charges[other] == deps.db.charges[other]
            &&& after.db.reservations == deps.db.reservations
            &&& after.db.url == deps.db.url
        }),
{
}

/// A charge that the gateway refuses is reported with the whole reason. A
/// declined card is final and carries the type "CardDeclined". An unavailable
/// gateway is worth another attempt and carries no type.
pub proof fn a_refused_charge_is_reported_in_full(deps: DepsView, input: ChargePaymentView)
    requires
        !deps.db.charges.contains_key(input.idempotency_key),
    ensures
        deps.payments.charge_result(input.order_id, input.amount_cents, input.idempotency_key)
            matches Err(error) ==> deps.charge_payment_result(input) matches Err(reported)
            && reported matches ActivityErrorView::Application(failure)
            && reports(failure, error),
{
    match deps.payments.charge_result(input.order_id, input.amount_cents, input.idempotency_key) {
        Err(error) => a_payment_error_is_reported_in_full(error),
        Ok(_) => {},
    }
}

/// Whether a failure reports a payment error in full.
pub open spec fn reports(failure: ActivityFailureView, error: PaymentErrorView) -> bool {
    match error {
        PaymentErrorView::Declined(reason) => {
            &&& crate::text_laws::frames(
                failure.message,
                "card declined: "@,
                reason,
                Seq::empty(),
            )
            &&& failure.error_type == Some("CardDeclined"@)
            &&& failure.non_retryable
        },
        PaymentErrorView::Unavailable(reason) => {
            &&& crate::text_laws::frames(
                failure.message,
                "payment gateway unavailable: "@,
                reason,
                Seq::empty(),
            )
            &&& failure.error_type is None
            &&& !failure.non_retryable
        },
    }
}

/// Every payment error is reported in full, whoever reports it.
pub proof fn a_payment_error_is_reported_in_full(error: PaymentErrorView)
    ensures
        reports(crate::activities::failure_of_payment(error), error),
{
    match error {
        PaymentErrorView::Declined(reason) | PaymentErrorView::Unavailable(reason) => {
            crate::deps_laws::a_payment_error_tells_the_whole_reason(reason);
        },
    }
}

/// A charge can be carried out unless it would be a new one that the gateway
/// grants under a key that cannot be cut: none of the first characters of the
/// key take up eight bytes together, and the key is longer than that.
pub proof fn only_a_new_charge_can_be_out_of_reach(deps: DepsView, input: ChargePaymentView)
    ensures
        !deps.can_charge(input) <==> {
            let key = input.idempotency_key;
            &&& !deps.db.charges.contains_key(key)
            &&& deps.payments.charge_result(input.order_id, input.amount_cents, key) is Ok
            &&& encode_utf8(key).len() > 8
            &&& forall|k: int|
                0 <= k <= key.len() ==> (#[trigger] encode_utf8(key.take(k))).len() != 8
        },
{
    let key = input.idempotency_key;
    crate::text_laws::a_cut_falls_between_characters(key, KEY_PREFIX_BYTES as nat);
    assert(key.take(key.len() as int) =~= key);
    assert(encode_utf8(key.take(key.len() as int)).len() == encode_utf8(key).len());
}

// ---------------------------------------------------------------------------
// The gateway
// ---------------------------------------------------------------------------

/// The provider is idempotent too: the same amount under the same key gives the
/// same charge id, whichever order it is for and however often it was called.
pub proof fn the_gateway_repeats_its_charge_ids(
    one: GatewayView,
    other: GatewayView,
    one_order: Seq<char>,
    other_order: Seq<char>,
    amount_cents: u64,
    key: Seq<char>,
)
    requires
        crate::text::can_cut(key, KEY_PREFIX_BYTES as nat),
        one.grants(one_order),
        other.grants(other_order),
    ensures
        one.charge_result(one_order, amount_cents, key) == other.charge_result(
            other_order,
            amount_cents,
            key,
        ),
{
}

/// The gateway fails only the declined and the flaky, and grants exactly what
/// it says that it grants.
pub proof fn the_gateway_grants_all_but_the_declined_and_the_flaky(
    gateway: GatewayView,
    order_id: Seq<char>,
    amount_cents: u64,
    key: Seq<char>,
)
    ensures
        gateway.grants(order_id) <==> gateway.charge_result(order_id, amount_cents, key) is Ok,
        !crate::deps::is_declined(order_id) && !crate::deps::is_flaky(order_id)
            ==> gateway.grants(order_id),
{
}

/// The gateway after these orders were charged, one after the other.
pub open spec fn after_charges(gateway: GatewayView, orders: Seq<Seq<char>>) -> GatewayView
    decreases orders.len(),
{
    if orders.len() == 0 {
        gateway
    } else {
        after_charges(gateway, orders.drop_last()).after_charge(orders.last())
    }
}

/// How many of these orders meet an unreliable gateway: the flaky ones whose
/// card is not declined.
pub open spec fn flaky_count(orders: Seq<Seq<char>>) -> nat
    decreases orders.len(),
{
    if orders.len() == 0 {
        0
    } else {
        flaky_count(orders.drop_last()) + if crate::deps::is_flaky(orders.last())
            && !crate::deps::is_declined(orders.last()) {
            1nat
        } else {
            0nat
        }
    }
}

/// The gateway counts every charge, granted or not and whichever order it is
/// for, as long as the counter lasts.
pub proof fn every_charge_is_counted(gateway: GatewayView, orders: Seq<Seq<char>>)
    requires
        gateway.calls + orders.len() <= u32::MAX,
    ensures
        after_charges(gateway, orders).calls == gateway.calls + orders.len(),
    decreases orders.len(),
{
    if orders.len() > 0 {
        every_charge_is_counted(gateway, orders.drop_last());
    }
}

/// The gateway counts the charges of flaky orders on their own, all of them
/// together, as long as the counter lasts.
pub proof fn every_flaky_charge_is_counted(gateway: GatewayView, orders: Seq<Seq<char>>)
    requires
        gateway.attempts + flaky_count(orders) <= u32::MAX,
    ensures
        after_charges(gateway, orders).attempts == gateway.attempts + flaky_count(orders),
    decreases orders.len(),
{
    if orders.len() > 0 {
        every_flaky_charge_is_counted(gateway, orders.drop_last());
    }
}

/// A gateway that nothing flaky has called yet refuses exactly two flaky
/// charges and grants them from then on, whatever else it is asked to charge in
/// between and as long as the counter lasts.
pub proof fn a_flaky_order_succeeds_on_the_third_attempt(
    gateway: GatewayView,
    orders: Seq<Seq<char>>,
    order_id: Seq<char>,
)
    requires
        crate::deps::is_flaky(order_id),
        !crate::deps::is_declined(order_id),
        gateway.attempts == 0,
        flaky_count(orders) <= u32::MAX,
    ensures
        after_charges(gateway, orders).grants(order_id) <==> flaky_count(orders) >= 2,
{
    every_flaky_charge_is_counted(gateway, orders);
}

/// A declined card stays declined, whatever was charged before.
pub proof fn a_declined_card_stays_declined(
    gateway: GatewayView,
    orders: Seq<Seq<char>>,
    order_id: Seq<char>,
)
    requires
        crate::deps::is_declined(order_id),
    ensures
        !after_charges(gateway, orders).grants(order_id),
{
}

// ---------------------------------------------------------------------------
// Retries
// ---------------------------------------------------------------------------

/// A declined card is not tried again, and both the failure and the policy for
/// payments say so, each on its own.
pub proof fn a_declined_card_is_not_retried(
    gateway: GatewayView,
    order_id: Seq<char>,
    amount_cents: u64,
    key: Seq<char>,
    attempts: nat,
)
    requires
        crate::deps::is_declined(order_id),
    ensures
        gateway.charge_result(order_id, amount_cents, key) matches Err(error) && {
            let failure = crate::activities::failure_of_payment(error);
            &&& failure.error_type == Some(error_types::CARD_DECLINED@)
            &&& failure.non_retryable
            &&& !crate::options::payment_policy().retries(failure, attempts)
            &&& !crate::options::payment_policy().retries(
                ActivityFailureView { non_retryable: false, ..failure },
                attempts,
            )
        },
{
    let names = crate::options::payment_policy().non_retryable_error_types;
    assert(names[0] == error_types::CARD_DECLINED@);
    assert(names.contains(error_types::CARD_DECLINED@));
}

/// An unavailable gateway is tried again until the fifth attempt, which leaves
/// room for the third attempt that a flaky order needs.
pub proof fn an_unavailable_gateway_is_retried(reason: Seq<char>, attempts: nat)
    ensures
        crate::options::payment_policy().retries(
            crate::activities::failure_of_payment(PaymentErrorView::Unavailable(reason)),
            attempts,
        ) <==> attempts < 5,
        FLAKY_FAILURES < crate::options::payment_policy().maximum_attempts,
{
}

/// Undoing a step is never given up: it is tried again after any failure that
/// is not final in itself, whatever the number of attempts, and so whenever a
/// charge or a reservation would be.
pub proof fn compensation_is_never_given_up(failure: ActivityFailureView, attempts: nat)
    ensures
        crate::options::compensation_policy().maximum_attempts == 0,
        crate::options::compensation_policy().retries(failure, attempts)
            <==> !failure.non_retryable,
        crate::options::payment_policy().retries(failure, attempts)
            ==> crate::options::compensation_policy().retries(failure, attempts),
        crate::options::inventory_policy().retries(failure, attempts)
            ==> crate::options::compensation_policy().retries(failure, attempts),
{
    assert(!crate::options::compensation_policy().non_retryable_error_types.contains(
        failure.error_type->0,
    ));
}

/// One attempt follows another exactly if the failure is not final in itself,
/// the policy does not list its type, and there are attempts left, of which a
/// limit of zero leaves any number.
pub proof fn retries_take_the_failure_and_the_policy(
    policy: RetryPolicyView,
    failure: ActivityFailureView,
    attempts: nat,
)
    ensures
        failure.non_retryable ==> !policy.retries(failure, attempts),
        forall|i: int|
            0 <= i < policy.non_retryable_error_types.len() && failure.error_type == Some(
                #[trigger] policy.non_retryable_error_types[i],
            ) ==> !policy.retries(failure, attempts),
        policy.maximum_attempts > 0 && attempts >= policy.maximum_attempts ==> !policy.retries(
            failure,
            attempts,
        ),
        !failure.non_retryable && failure.error_type is None && policy.maximum_attempts == 0
            ==> policy.retries(failure, attempts),
        !failure.non_retryable && failure.error_type is None && attempts < policy.maximum_attempts
            ==> policy.retries(failure, attempts),
{
}

/// A payment has half a minute for an attempt. It is tried five times at most,
/// after a pause of a second that doubles up to half a minute, and not again
/// once the card is declined.
pub proof fn a_payment_is_given_up_eventually()
    ensures
        crate::options::payment_options_view().start_to_close_secs == 30,
        crate::options::payment_options_view().heartbeat_secs is None,
        crate::options::payment_options_view().retry_policy matches Some(policy) && {
            &&& policy.initial_interval_secs == Some(1u64)
            &&& policy.backoff_percent == Some(200u32)
            &&& policy.maximum_interval_secs == Some(30u64)
            &&& policy.maximum_attempts == 5
            &&& policy.non_retryable_error_types == seq!["CardDeclined"@]
        },
{
}

/// A reservation has ten seconds for an attempt. It is tried three times at
/// most, and not again once there is no stock. The pauses are the runtime's.
pub proof fn a_reservation_is_given_up_early()
    ensures
        crate::options::inventory_options_view().start_to_close_secs == 10,
        crate::options::inventory_options_view().heartbeat_secs is None,
        crate::options::inventory_options_view().retry_policy matches Some(policy) && {
            &&& policy.initial_interval_secs is None
            &&& policy.backoff_percent is None
            &&& policy.maximum_interval_secs is None
            &&& policy.maximum_attempts == 3
            &&& policy.non_retryable_error_types == seq!["OutOfStock"@]
        },
{
}

/// A shipment has five minutes for an attempt, but is missed after five seconds
/// without a heartbeat. Trying again is left to the runtime.
pub proof fn a_shipment_has_to_report()
    ensures
        crate::options::shipping_options_view().start_to_close_secs == 300,
        crate::options::shipping_options_view().heartbeat_secs == Some(5u64),
        crate::options::shipping_options_view().retry_policy is None,
{
}

/// Undoing a step has half a minute for an attempt, any number of attempts, and
/// pauses of half a minute at most.
pub proof fn a_compensation_has_any_number_of_attempts()
    ensures
        crate::options::compensation_options_view().start_to_close_secs == 30,
        crate::options::compensation_options_view().heartbeat_secs is None,
        crate::options::compensation_options_view().retry_policy matches Some(policy) && {
            &&& policy.initial_interval_secs is None
            &&& policy.backoff_percent is None
            &&& policy.maximum_interval_secs == Some(30u64)
            &&& policy.maximum_attempts == 0
            &&& policy.non_retryable_error_types.len() == 0
        },
{
}

/// What comes of a charge when the runtime retries it by the policy for
/// payments, from attempt number `attempt` on: the dependencies afterwards, the
/// outcome, and the number of the last attempt.
pub open spec fn charge_with_retries(deps: DepsView, input: ChargePaymentView, attempt: nat) -> (
    DepsView,
    Result<Seq<char>, ActivityErrorView>,
    nat,
)
    decreases 5 - attempt,
{
    let after = deps.after_charge_payment(input);
    match deps.charge_payment_result(input) {
        Err(ActivityErrorView::Application(failure)) if crate::options::payment_policy().retries(
            failure,
            attempt,
        ) => charge_with_retries(after, input, attempt + 1),
        outcome => (after, outcome, attempt),
    }
}

/// A charge is settled after five attempts at most.
pub proof fn a_charge_is_settled_within_five_attempts(
    deps: DepsView,
    input: ChargePaymentView,
    attempt: nat,
)
    requires
        1 <= attempt <= 5,
    ensures
        attempt <= charge_with_retries(deps, input, attempt).2 <= 5,
    decreases 5 - attempt,
{
    match deps.charge_payment_result(input) {
        Err(ActivityErrorView::Application(failure)) => {
            if crate::options::payment_policy().retries(failure, attempt) {
                a_charge_is_settled_within_five_attempts(
                    deps.after_charge_payment(input),
                    input,
                    attempt + 1,
                );
            }
        },
        _ => {},
    }
}

/// Retries ride out a flaky gateway: unless its card is declined, an order is
/// charged by the third attempt at the latest, and the charge is on record.
pub proof fn retries_ride_out_a_flaky_gateway(deps: DepsView, input: ChargePaymentView)
    requires
        !crate::deps::is_declined(input.order_id),
        !deps.db.charges.contains_key(input.idempotency_key),
        crate::text::can_cut(input.idempotency_key, KEY_PREFIX_BYTES as nat),
    ensures
        ({
            let charge_id = crate::deps::charge_id_for(input.amount_cents, input.idempotency_key);
            let (after, outcome, attempts) = charge_with_retries(deps, input, 1);
            &&& outcome == Ok::<Seq<char>, ActivityErrorView>(charge_id)
            &&& attempts == if deps.payments.grants(input.order_id) {
                1int
            } else {
                3 - deps.payments.attempts
            }
            &&& after.db == (DatabaseView {
                charges: deps.db.charges.insert(input.idempotency_key, charge_id),
                ..deps.db
            })
        }),
{
    reveal_with_fuel(charge_with_retries, 4);
}

/// A declined card is settled by the first attempt: the gateway is called once
/// and nothing is recorded.
pub proof fn a_declined_card_is_settled_at_once(deps: DepsView, input: ChargePaymentView)
    requires
        crate::deps::is_declined(input.order_id),
        !deps.db.charges.contains_key(input.idempotency_key),
    ensures
        ({
            let (after, outcome, attempts) = charge_with_retries(deps, input, 1);
            &&& outcome is Err
            &&& attempts == 1
            &&& after.db == deps.db
            &&& after.payments.calls == crate::deps::counted(deps.payments.calls)
        }),
{
}

// ---------------------------------------------------------------------------
// Charge ids
// ---------------------------------------------------------------------------

/// A numeral is made of digits and of nothing else.
proof fn lemma_decimal_digits(n: nat)
    ensures
        crate::text::decimal(n).len() > 0,
        forall|i: int|
            0 <= i < crate::text::decimal(n).len() ==> '0' <= #[trigger] crate::text::decimal(n)[i]
                <= '9',
    decreases n,
{
    if n >= 10 {
        lemma_decimal_digits(n / 10);
    }
}

/// Different numbers have different numerals.
proof fn lemma_decimal_is_injective(a: nat, b: nat)
    requires
        crate::text::decimal(a) == crate::text::decimal(b),
    ensures
        a == b,
    decreases a,
{
    lemma_decimal_digits(a / 10);
    lemma_decimal_digits(b / 10);
    let text_a = crate::text::decimal(a);
    let text_b = crate::text::decimal(b);
    assert(text_a.last() == crate::text::digit(a % 10));
    assert(text_b.last() == crate::text::digit(b % 10));
    assert(a % 10 == b % 10);
    if a >= 10 {
        assert(text_a.len() >= 2);
        assert(b >= 10);
        assert(text_a.drop_last() =~= crate::text::decimal(a / 10));
        assert(text_b.drop_last() =~= crate::text::decimal(b / 10));
        lemma_decimal_is_injective(a / 10, b / 10);
    } else if b >= 10 {
        assert(text_b.len() >= 2);
    }
}

/// ASCII text can be cut after any number of bytes, and a prefix of so many
/// bytes is one of so many characters. So every key of an order with an ASCII
/// id can be cut for a charge id.
pub proof fn ascii_text_can_be_cut_anywhere(text: Seq<char>, limit: nat)
    requires
        is_ascii_chars(text),
    ensures
        crate::text::can_cut(text, limit),
        crate::text::byte_prefix(text, limit) == text.take(
            if text.len() < limit {
                text.len() as int
            } else {
                limit as int
            },
        ),
{
    let bytes = encode_utf8(text);
    let end = crate::text::prefix_len(text, limit) as int;
    let head = text.take(end);
    encode_utf8_valid_utf8(text);
    is_ascii_chars_encode_utf8(text);
    is_char_boundary_start_end_of_seq(bytes);
    if end < bytes.len() {
        assert(bytes[end] == text[end] as u8);
        is_char_boundary_iff_not_is_continuation_byte(bytes, end);
    }
    assert(is_ascii_chars(head));
    is_ascii_chars_encode_utf8(head);
    assert(encode_utf8(head) =~= bytes.subrange(0, end)) by {
        assert forall|i: int| 0 <= i < end implies encode_utf8(head)[i] == bytes[i] by {
            assert(head[i] == text[i]);
        }
    }
    encode_utf8_decode_utf8(head);
}

/// Two charges have the same id exactly if they are of the same amount and their
/// keys agree in the bytes that the id takes over.
pub proof fn charge_ids_tell_the_amount_and_the_key_prefix(
    one: u64,
    other: u64,
    one_key: Seq<char>,
    other_key: Seq<char>,
)
    ensures
        crate::deps::charge_id_for(one, one_key) == crate::deps::charge_id_for(other, other_key)
            <==> one == other && crate::text::byte_prefix(one_key, KEY_PREFIX_BYTES as nat)
            == crate::text::byte_prefix(other_key, KEY_PREFIX_BYTES as nat),
{
    reveal_strlit("ch_");
    reveal_strlit("_");
    let one_id = crate::deps::charge_id_for(one, one_key);
    let other_id = crate::deps::charge_id_for(other, other_key);
    if one_id == other_id {
        let a = crate::text::decimal(one as nat);
        let b = crate::text::decimal(other as nat);
        lemma_decimal_digits(one as nat);
        lemma_decimal_digits(other as nat);
        assert(one_id[3int + a.len()] == '_');
        assert(other_id[3int + b.len()] == '_');
        assert forall|i: int| 0 <= i < a.len() implies one_id[3 + i] == a[i] by {}
        assert forall|i: int| 0 <= i < b.len() implies other_id[3 + i] == b[i] by {}
        if a.len() < b.len() {
            assert(other_id[3int + a.len()] == b[a.len() as int]);
        } else if b.len() < a.len() {
            assert(one_id[3int + b.len()] == a[b.len() as int]);
        } else {
            assert(a =~= b) by {
                assert forall|i: int| 0 <= i < a.len() implies a[i] == b[i] by {
                    assert(one_id[3 + i] == a[i]);
                    assert(other_id[3 + i] == b[i]);
                }
            }
            lemma_decimal_is_injective(one as nat, other as nat);
            let one_prefix = crate::text::byte_prefix(one_key, KEY_PREFIX_BYTES as nat);
            let other_prefix = crate::text::byte_prefix(other_key, KEY_PREFIX_BYTES as nat);
            assert(one_prefix =~= one_id.skip(4int + a.len()));
            assert(other_prefix =~= other_id.skip(4int + b.len()));
        }
    }
}

// ---------------------------------------------------------------------------
// Shipments
// ---------------------------------------------------------------------------

/// An attempt that resumes from the heartbeat of the one before ships what that
/// one left: together they ship every parcel once and in order, as if a single
/// attempt had.
pub proof fn resuming_ships_every_parcel_once(heartbeat: u32, parcel_count: u32)
    requires
        heartbeat <= parcel_count,
    ensures
        crate::activities::parcels(0, heartbeat) + crate::activities::parcels(
            heartbeat,
            parcel_count,
        ) == crate::activities::parcels(0, parcel_count),
        crate::activities::parcels(0, parcel_count).no_duplicates(),
        forall|parcel: u32|
            crate::activities::parcels(0, parcel_count).contains(parcel) <==> parcel
                < parcel_count,
{
    let all = crate::activities::parcels(0, parcel_count);
    assert(crate::activities::parcels(0, heartbeat) + crate::activities::parcels(
        heartbeat,
        parcel_count,
    ) =~= all);
    assert forall|parcel: u32| parcel < parcel_count implies all.contains(parcel) by {
        assert(all[parcel as int] == parcel);
    }
}

/// What is left of a shipment are the parcels from the next one up to the last,
/// each of them once and in that order, and nothing exactly if the next one
/// would be beyond the last.
pub proof fn a_shipment_has_its_parcels_left(shipment: Shipment)
    ensures
        shipment.next_parcel >= shipment.parcel_count <==> shipment.remaining().len() == 0,
        shipment.next_parcel < shipment.parcel_count ==> shipment.remaining().len()
            == shipment.parcel_count - shipment.next_parcel,
        forall|i: int|
            0 <= i < shipment.remaining().len() ==> #[trigger] shipment.remaining()[i]
                == shipment.next_parcel + i,
        forall|parcel: u32| #[trigger]
            shipment.remaining().contains(parcel) <==> shipment.next_parcel <= parcel
                < shipment.parcel_count,
{
    let left = shipment.remaining();
    assert forall|parcel: u32|
        shipment.next_parcel <= parcel < shipment.parcel_count implies #[trigger] left.contains(
        parcel,
    ) by {
        assert(left[parcel - shipment.next_parcel] == parcel);
    }
}

/// Whether these states of a shipment follow each other: it starts at the
/// heartbeat, a parcel is sent wherever one is left, and the last state has none
/// left.
pub open spec fn is_run(states: Seq<Shipment>, heartbeat: u32, parcel_count: u32) -> bool {
    &&& states.len() > 0
    &&& states[0].next_parcel == heartbeat
    &&& states.last().remaining().len() == 0
    &&& forall|i: int|
        0 <= i < states.len() ==> (#[trigger] states[i]).parcel_count == parcel_count
    &&& forall|i: int, j: int|
        #![trigger states[i], states[j]]
        0 <= i && j == i + 1 && j < states.len() ==> states[i].remaining().len() > 0
            && states[j].remaining() == states[i].remaining().drop_first()
            && states[j].next_parcel == states[i].remaining()[0] + 1
}

/// An attempt that runs to its end sends exactly the parcels from its heartbeat
/// up to the last, one per state and in that order.
pub proof fn a_run_sends_every_parcel_that_was_left(
    states: Seq<Shipment>,
    heartbeat: u32,
    parcel_count: u32,
    i: int,
)
    requires
        is_run(states, heartbeat, parcel_count),
        0 <= i < states.len(),
    ensures
        states[i].next_parcel == heartbeat + i,
        i < states.len() - 1 ==> states[i].remaining()[0] == heartbeat + i,
        heartbeat <= parcel_count ==> states.len() == parcel_count - heartbeat + 1,
        heartbeat >= parcel_count ==> states.len() == 1,
{
    lemma_run_advances(states, heartbeat, parcel_count, i);
    lemma_run_advances(states, heartbeat, parcel_count, states.len() - 1);
    a_shipment_has_its_parcels_left(states[i]);
    a_shipment_has_its_parcels_left(states.last());
    if states.len() > 1 {
        let before_last = states.len() - 2;
        lemma_run_advances(states, heartbeat, parcel_count, before_last);
        a_shipment_has_its_parcels_left(states[before_last]);
        assert(states[before_last + 1] == states.last());
    }
}

/// Each state of a run is one parcel further than the one before.
proof fn lemma_run_advances(
    states: Seq<Shipment>,
    heartbeat: u32,
    parcel_count: u32,
    i: int,
)
    requires
        is_run(states, heartbeat, parcel_count),
        0 <= i < states.len(),
    ensures
        states[i].next_parcel == heartbeat + i,
    decreases i,
{
    if i > 0 {
        lemma_run_advances(states, heartbeat, parcel_count, i - 1);
        a_shipment_has_its_parcels_left(states[i - 1]);
        assert(states[i].next_parcel == states[i - 1].remaining()[0] + 1);
    }
}

/// The parcels from one number up to another are those numbers in order, the
/// first one included and the last one not.
pub proof fn parcels_count_up(from: u32, to: u32)
    ensures
        crate::activities::parcels(from, to).len() == if from < to {
            to - from
        } else {
            0
        },
        forall|i: int|
            0 <= i < crate::activities::parcels(from, to).len() ==> #[trigger]
            crate::activities::parcels(from, to)[i] == from + i,
{
}

/// The summary of a shipment names the order and the number of its parcels.
pub proof fn a_summary_names_the_order_and_the_parcels(input: ShipOrderView)
    ensures
        exists|digits: Seq<char>|
            {
                &&& #[trigger] crate::text_laws::number_of(digits) == input.parcel_count
                &&& digits.len() > 0
                &&& forall|i: int| 0 <= i < digits.len() ==> '0' <= #[trigger] digits[i] <= '9'
                &&& digits[0] == '0' ==> input.parcel_count == 0 && digits.len() == 1
                &&& crate::text_laws::frames(
                    crate::activities::summary_of(input),
                    "order "@,
                    input.order_id,
                    " shipped in "@ + digits + " parcel(s)"@,
                )
            },
{
    let digits = crate::text::decimal(input.parcel_count as nat);
    crate::text_laws::a_numeral_reads_back(input.parcel_count as nat);
    assert(crate::text_laws::number_of(digits) == input.parcel_count);
}

/// A reservation id is "res_" and the whole key.
pub proof fn a_reservation_id_holds_the_whole_key(key: Seq<char>)
    ensures
        crate::text_laws::frames(
            crate::activities::reservation_id_for(key),
            "res_"@,
            key,
            Seq::empty(),
        ),
{
}

} // verus!
