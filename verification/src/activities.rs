//! The activities: the side effects of the pipeline.
//!
//! Each may be attempted more than once, so each is safe to repeat: what it
//! records, it records under an idempotency key that the workflow derived and
//! that every attempt shares.

use vstd::prelude::*;
use vstd::string::*;

use crate::deps::{
    DatabaseView, Deps, DepsView, KEY_PREFIX_BYTES, PaymentError, PaymentErrorView,
};
use crate::text::{is_cuttable, join, to_decimal};

pub mod error_types;

verus! {

// ---------------------------------------------------------------------------
// Inputs
// ---------------------------------------------------------------------------

/// What it takes to reserve stock.
#[derive(Debug, Clone)]
pub struct ReserveInventory {
    pub order_id: String,
    pub sku: String,
    pub quantity: u32,
    pub idempotency_key: String,
}

/// A reservation input with its texts as characters.
#[verifier::ext_equal]
pub struct ReserveInventoryView {
    pub order_id: Seq<char>,
    pub sku: Seq<char>,
    pub quantity: u32,
    pub idempotency_key: Seq<char>,
}

impl View for ReserveInventory {
    type V = ReserveInventoryView;

    open spec fn view(&self) -> ReserveInventoryView {
        ReserveInventoryView {
            order_id: self.order_id@,
            sku: self.sku@,
            quantity: self.quantity,
            idempotency_key: self.idempotency_key@,
        }
    }
}

/// What it takes to charge a card.
#[derive(Debug, Clone)]
pub struct ChargePayment {
    pub order_id: String,
    pub amount_cents: u64,
    pub idempotency_key: String,
}

/// A charge input with its texts as characters.
#[verifier::ext_equal]
pub struct ChargePaymentView {
    pub order_id: Seq<char>,
    pub amount_cents: u64,
    pub idempotency_key: Seq<char>,
}

impl View for ChargePayment {
    type V = ChargePaymentView;

    open spec fn view(&self) -> ChargePaymentView {
        ChargePaymentView {
            order_id: self.order_id@,
            amount_cents: self.amount_cents,
            idempotency_key: self.idempotency_key@,
        }
    }
}

/// What it takes to ship an order.
#[derive(Debug, Clone)]
pub struct ShipOrder {
    pub order_id: String,
    pub parcel_count: u32,
}

/// A shipping input with its texts as characters.
#[verifier::ext_equal]
pub struct ShipOrderView {
    pub order_id: Seq<char>,
    pub parcel_count: u32,
}

impl View for ShipOrder {
    type V = ShipOrderView;

    open spec fn view(&self) -> ShipOrderView {
        ShipOrderView { order_id: self.order_id@, parcel_count: self.parcel_count }
    }
}

// ---------------------------------------------------------------------------
// Failures
// ---------------------------------------------------------------------------

/// A failure that an activity reports.
#[derive(Debug, Clone)]
pub struct ActivityFailure {
    pub message: String,
    /// What `RetryPolicy::non_retryable_error_types` is matched against.
    pub error_type: Option<String>,
    /// Whether another attempt is pointless whatever the policy says.
    pub non_retryable: bool,
}

/// A failure with its texts as characters.
#[verifier::ext_equal]
pub struct ActivityFailureView {
    pub message: Seq<char>,
    pub error_type: Option<Seq<char>>,
    pub non_retryable: bool,
}

impl View for ActivityFailure {
    type V = ActivityFailureView;

    open spec fn view(&self) -> ActivityFailureView {
        ActivityFailureView {
            message: self.message@,
            error_type: match self.error_type {
                Some(name) => Some(name@),
                None => None,
            },
            non_retryable: self.non_retryable,
        }
    }
}

/// Why an activity did not succeed.
#[derive(Debug, Clone)]
pub enum ActivityError {
    Application(ActivityFailure),
    Cancelled,
}

/// An activity error with its texts as characters.
#[verifier::ext_equal]
pub enum ActivityErrorView {
    Application(ActivityFailureView),
    Cancelled,
}

impl View for ActivityError {
    type V = ActivityErrorView;

    open spec fn view(&self) -> ActivityErrorView {
        match self {
            ActivityError::Application(failure) => ActivityErrorView::Application(failure@),
            ActivityError::Cancelled => ActivityErrorView::Cancelled,
        }
    }
}

/// The outcome of an activity that returns a text.
pub open spec fn activity_result_view(result: Result<String, ActivityError>) -> Result<
    Seq<char>,
    ActivityErrorView,
> {
    match result {
        Ok(text) => Ok(text@),
        Err(error) => Err(error@),
    }
}

/// How a payment error is reported: a declined card is permanent and carries
/// its type name, an unavailable gateway is worth another attempt.
pub open spec fn failure_of_payment(error: PaymentErrorView) -> ActivityFailureView {
    match error {
        PaymentErrorView::Declined(_) => ActivityFailureView {
            message: error.message(),
            error_type: Some(error_types::CARD_DECLINED@),
            non_retryable: true,
        },
        PaymentErrorView::Unavailable(_) => ActivityFailureView {
            message: error.message(),
            error_type: None,
            non_retryable: false,
        },
    }
}

/// Reports a payment error.
pub fn payment_failure(error: &PaymentError) -> (failure: ActivityFailure)
    ensures
        failure@ == failure_of_payment(error@),
{
    match error {
        PaymentError::Declined(_) => ActivityFailure {
            message: error.message(),
            error_type: Some(error_types::CARD_DECLINED.to_string()),
            non_retryable: true,
        },
        PaymentError::Unavailable(_) => ActivityFailure {
            message: error.message(),
            error_type: None,
            non_retryable: false,
        },
    }
}

/// What is reported of a reservation of nothing: no attempt can mend the
/// request.
pub open spec fn nothing_to_reserve() -> ActivityFailureView {
    ActivityFailureView {
        message: "quantity must be greater than zero"@,
        error_type: None,
        non_retryable: true,
    }
}

// ---------------------------------------------------------------------------
// Reservation ids and summaries
// ---------------------------------------------------------------------------

/// The id of a reservation under an idempotency key.
pub open spec fn reservation_id_for(idempotency_key: Seq<char>) -> Seq<char> {
    "res_"@ + idempotency_key
}

/// The id of a reservation under an idempotency key. It holds the whole key, so
/// no two reservations share one, and a release by id gives back no other.
pub fn reservation_id(idempotency_key: &str) -> (id: String)
    ensures
        id@ == reservation_id_for(idempotency_key@),
{
    join("res_", idempotency_key)
}

/// What is reported of a complete shipment.
pub open spec fn summary_of(input: ShipOrderView) -> Seq<char> {
    "order "@ + input.order_id + " shipped in "@ + crate::text::decimal(input.parcel_count as nat)
        + " parcel(s)"@
}

/// Reports a complete shipment.
pub fn shipment_summary(input: &ShipOrder) -> (summary: String)
    ensures
        summary@ == summary_of(input@),
{
    let order = join("order ", input.order_id.as_str());
    let shipped = join(order.as_str(), " shipped in ");
    let count = join(shipped.as_str(), to_decimal(input.parcel_count as u64).as_str());
    join(count.as_str(), " parcel(s)")
}

// ---------------------------------------------------------------------------
// What the activities do to their dependencies
// ---------------------------------------------------------------------------

impl DepsView {
    /// Whether a charge can be carried out: where it leads to a new charge, the
    /// idempotency key can be cut for the charge id.
    pub open spec fn can_charge(self, input: ChargePaymentView) -> bool {
        ||| self.db.charges.contains_key(input.idempotency_key)
        ||| !self.payments.grants(input.order_id)
        ||| crate::text::can_cut(input.idempotency_key, KEY_PREFIX_BYTES as nat)
    }

    /// What charging a payment answers: the charge on record, if there is one,
    /// or else what the gateway says.
    pub open spec fn charge_payment_result(self, input: ChargePaymentView) -> Result<
        Seq<char>,
        ActivityErrorView,
    > {
        if self.db.charges.contains_key(input.idempotency_key) {
            Ok(self.db.charges[input.idempotency_key])
        } else {
            match self.payments.charge_result(
                input.order_id,
                input.amount_cents,
                input.idempotency_key,
            ) {
                Ok(charge_id) => Ok(charge_id),
                Err(error) => Err(ActivityErrorView::Application(failure_of_payment(error))),
            }
        }
    }

    /// The dependencies after charging a payment: untouched if the charge was
    /// on record; otherwise the gateway was called, and a success recorded.
    pub open spec fn after_charge_payment(self, input: ChargePaymentView) -> DepsView {
        if self.db.charges.contains_key(input.idempotency_key) {
            self
        } else {
            DepsView {
                db: match self.payments.charge_result(
                    input.order_id,
                    input.amount_cents,
                    input.idempotency_key,
                ) {
                    Ok(charge_id) => DatabaseView {
                        charges: self.db.charges.insert(input.idempotency_key, charge_id),
                        ..self.db
                    },
                    Err(_) => self.db,
                },
                payments: self.payments.after_charge(input.order_id),
            }
        }
    }

    /// What reserving stock answers: the reservation on record, if there is one,
    /// or else a new one.
    pub open spec fn reserve_inventory_result(self, input: ReserveInventoryView) -> Result<
        Seq<char>,
        ActivityErrorView,
    > {
        if input.quantity == 0 {
            Err(ActivityErrorView::Application(nothing_to_reserve()))
        } else if self.db.reservations.contains_key(input.idempotency_key) {
            Ok(self.db.reservations[input.idempotency_key])
        } else {
            Ok(reservation_id_for(input.idempotency_key))
        }
    }

    /// The dependencies after reserving stock.
    pub open spec fn after_reserve_inventory(self, input: ReserveInventoryView) -> DepsView {
        if input.quantity == 0 {
            self
        } else {
            DepsView {
                db: DatabaseView {
                    reservations: crate::table::with_default(
                        self.db.reservations,
                        input.idempotency_key,
                        reservation_id_for(input.idempotency_key),
                    ),
                    ..self.db
                },
                ..self
            }
        }
    }

    /// The dependencies after releasing a reservation.
    pub open spec fn after_release_inventory(self, reservation_id: Seq<char>) -> DepsView {
        DepsView {
            db: DatabaseView {
                reservations: crate::table::without_value(self.db.reservations, reservation_id),
                ..self.db
            },
            ..self
        }
    }
}

/// The activities, and the container of what they depend on.
pub struct OrderActivities {
    pub deps: Deps,
}

impl OrderActivities {
    /// Activities that work against `deps`.
    pub fn new(deps: Deps) -> (activities: Self)
        ensures
            activities.deps == deps,
    {
        OrderActivities { deps }
    }

    /// Whether a charge can be carried out: where it leads to a new charge, the
    /// idempotency key can be cut for the charge id.
    pub fn can_charge(&self, input: &ChargePayment) -> (ok: bool)
        requires
            self.deps.wf(),
        ensures
            ok == self.deps@.can_charge(input@),
    {
        let key = input.idempotency_key.as_str();
        self.deps.db.find_charge(key).is_some() || !self.deps.payments.grants(
            input.order_id.as_str(),
        ) || is_cuttable(key, KEY_PREFIX_BYTES)
    }

    /// Charges a payment once per idempotency key, however often it is
    /// attempted.
    pub fn charge_payment(&mut self, input: &ChargePayment) -> (result: Result<
        String,
        ActivityError,
    >)
        requires
            old(self).deps.wf(),
            old(self).deps@.can_charge(input@),
        ensures
            final(self).deps.wf(),
            activity_result_view(result) == old(self).deps@.charge_payment_result(input@),
            final(self).deps@ == old(self).deps@.after_charge_payment(input@),
    {
        let key = input.idempotency_key.as_str();
        // An earlier attempt may have charged already.
        match self.deps.db.find_charge(key) {
            Some(existing) => Ok(existing),
            None => {
                match self.deps.payments.charge(input.order_id.as_str(), input.amount_cents, key) {
                    Ok(charge_id) => {
                        Ok(self.deps.db.upsert_charge(key, charge_id.as_str()))
                    },
                    Err(error) => Err(ActivityError::Application(payment_failure(&error))),
                }
            },
        }
    }

    /// Reserves stock once per idempotency key, however often it is attempted.
    pub fn reserve_inventory(&mut self, input: &ReserveInventory) -> (result: Result<
        String,
        ActivityError,
    >)
        requires
            old(self).deps.wf(),
        ensures
            final(self).deps.wf(),
            activity_result_view(result) == old(self).deps@.reserve_inventory_result(input@),
            final(self).deps@ == old(self).deps@.after_reserve_inventory(input@),
    {
        if input.quantity == 0 {
            return Err(
                ActivityError::Application(
                    ActivityFailure {
                        message: "quantity must be greater than zero".to_string(),
                        error_type: None,
                        non_retryable: true,
                    },
                ),
            );
        }
        let key = input.idempotency_key.as_str();
        Ok(self.deps.db.upsert_reservation(key, reservation_id(key).as_str()))
    }

    /// Gives a charge back.
    pub fn refund_payment(&self, charge_id: &str) -> (result: Result<(), ActivityError>)
        ensures
            result == Ok::<(), ActivityError>(()),
    {
        match self.deps.payments.refund(charge_id) {
            Ok(()) => Ok(()),
            Err(error) => Err(ActivityError::Application(payment_failure(&error))),
        }
    }

    /// Gives reserved stock back.
    pub fn release_inventory(&mut self, reservation_id: &str) -> (result: Result<
        (),
        ActivityError,
    >)
        requires
            old(self).deps.wf(),
        ensures
            final(self).deps.wf(),
            result == Ok::<(), ActivityError>(()),
            final(self).deps@ == old(self).deps@.after_release_inventory(reservation_id@),
    {
        self.deps.db.delete_reservation(reservation_id);
        Ok(())
    }

    /// Starts shipping, or resumes where the heartbeat of an earlier attempt
    /// says that it stopped.
    pub fn ship_order(input: &ShipOrder, heartbeat: Option<u32>) -> (shipment: Shipment)
        ensures
            shipment.parcel_count == input.parcel_count,
            shipment.next_parcel == (match heartbeat {
                Some(shipped) => shipped,
                None => 0u32,
            }),
    {
        Shipment {
            next_parcel: match heartbeat {
                Some(shipped) => shipped,
                None => 0,
            },
            parcel_count: input.parcel_count,
        }
    }
}

// ---------------------------------------------------------------------------
// Shipping
// ---------------------------------------------------------------------------

/// One attempt at shipping: how far it has come.
pub struct Shipment {
    pub next_parcel: u32,
    pub parcel_count: u32,
}

/// What a shipment does next.
#[derive(Debug, Clone, Copy, PartialEq, Eq, Structural)]
pub enum ShipmentStep {
    /// Send this parcel.
    Ship(u32),
    /// Stop: the attempt was cancelled with parcels left.
    Cancelled,
    /// Every parcel is on its way.
    Done,
}

/// The parcels from `from` up to `to`, in the order in which they ship.
pub open spec fn parcels(from: u32, to: u32) -> Seq<u32> {
    if from < to {
        Seq::new((to - from) as nat, |i: int| (from + i) as u32)
    } else {
        Seq::empty()
    }
}

impl Shipment {
    /// The parcels that are left to ship.
    pub open spec fn remaining(&self) -> Seq<u32> {
        parcels(self.next_parcel, self.parcel_count)
    }

    /// What to do next, where `cancelled` says whether the attempt has been
    /// cancelled. A cancellation only matters while a parcel is left.
    pub fn step(&self, cancelled: bool) -> (step: ShipmentStep)
        ensures
            step == if self.remaining().len() == 0 {
                ShipmentStep::Done
            } else if cancelled {
                ShipmentStep::Cancelled
            } else {
                ShipmentStep::Ship(self.remaining()[0])
            },
            step == ShipmentStep::Done <==> self.next_parcel >= self.parcel_count,
            step == ShipmentStep::Cancelled <==> self.next_parcel < self.parcel_count && cancelled,
            step matches ShipmentStep::Ship(parcel) ==> parcel == self.next_parcel,
    {
        if self.next_parcel >= self.parcel_count {
            ShipmentStep::Done
        } else if cancelled {
            ShipmentStep::Cancelled
        } else {
            ShipmentStep::Ship(self.next_parcel)
        }
    }

    /// Notes that the next parcel was sent, and returns the heartbeat to
    /// record: where another attempt resumes.
    pub fn parcel_sent(&mut self) -> (heartbeat: u32)
        requires
            old(self).remaining().len() > 0,
        ensures
            final(self).parcel_count == old(self).parcel_count,
            final(self).remaining() == old(self).remaining().drop_first(),
            heartbeat == old(self).remaining()[0] + 1,
            heartbeat == final(self).next_parcel,
            heartbeat == old(self).next_parcel + 1,
    {
        self.next_parcel = self.next_parcel + 1;
        assert(self.remaining() =~= old(self).remaining().drop_first());
        self.next_parcel
    }
}

} // verus!
