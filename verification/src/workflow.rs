//! The order workflow: durable orchestration without any side effect.
//!
//! The workflow is a machine. The runtime hands it an event, it updates its
//! state and answers with the next action, and what came of that action is the
//! next event. It consults nothing but its state and the event, so replaying
//! recorded events rebuilds the state and asks for the same actions again.

use vstd::prelude::*;
use vstd::string::*;

use crate::activities::{
    ChargePayment, ChargePaymentView, ReserveInventory, ReserveInventoryView, ShipOrder,
    ShipOrderView,
};
use crate::options::{
    compensation_options, inventory_options, payment_options, shipping_options, ActivityOptions,
    ActivityOptionsView,
};
use crate::text::join;

verus! {

/// The queue that the worker polls and that orders are started on.
pub const TASK_QUEUE: &'static str = "order-pipeline";

/// What a cancelled order results in.
pub const CANCELLED: &'static str = "cancelled by request; fully compensated";

// ---------------------------------------------------------------------------
// Requests and status
// ---------------------------------------------------------------------------

/// An order.
#[derive(Debug, Clone)]
pub struct OrderRequest {
    pub order_id: String,
    pub sku: String,
    pub quantity: u32,
    pub amount_cents: u64,
    pub parcel_count: u32,
}

/// An order with its texts as characters.
#[verifier::ext_equal]
pub struct OrderRequestView {
    pub order_id: Seq<char>,
    pub sku: Seq<char>,
    pub quantity: u32,
    pub amount_cents: u64,
    pub parcel_count: u32,
}

impl View for OrderRequest {
    type V = OrderRequestView;

    open spec fn view(&self) -> OrderRequestView {
        OrderRequestView {
            order_id: self.order_id@,
            sku: self.sku@,
            quantity: self.quantity,
            amount_cents: self.amount_cents,
            parcel_count: self.parcel_count,
        }
    }
}

/// How far an order has come.
#[derive(Debug, Clone, Copy, PartialEq, Eq, Structural)]
pub enum OrderStatus {
    Reserving,
    Charging,
    Shipping,
    Completed,
    Compensating,
    Failed,
}

// ---------------------------------------------------------------------------
// Identifiers
// ---------------------------------------------------------------------------

/// The id of the workflow that handles an order. It derives from the order, so
/// that starting one order twice is recognised.
pub open spec fn workflow_id_for(order_id: Seq<char>) -> Seq<char> {
    "order-"@ + order_id
}

/// The idempotency key of a workflow's reservation.
pub open spec fn reservation_key_for(workflow_id: Seq<char>) -> Seq<char> {
    workflow_id + ":reserve"@
}

/// The idempotency key of a workflow's charge.
pub open spec fn payment_key_for(workflow_id: Seq<char>) -> Seq<char> {
    workflow_id + ":charge"@
}

/// The id of the workflow that handles an order.
pub fn workflow_id(order_id: &str) -> (id: String)
    ensures
        id@ == workflow_id_for(order_id@),
{
    join("order-", order_id)
}

/// The idempotency key of a workflow's reservation: the same for every attempt
/// and every replay, another for another workflow.
pub fn reservation_key(workflow_id: &str) -> (key: String)
    ensures
        key@ == reservation_key_for(workflow_id@),
{
    join(workflow_id, ":reserve")
}

/// The idempotency key of a workflow's charge: the same for every attempt and
/// every replay, another for another workflow.
pub fn payment_key(workflow_id: &str) -> (key: String)
    ensures
        key@ == payment_key_for(workflow_id@),
{
    join(workflow_id, ":charge")
}

// ---------------------------------------------------------------------------
// Events and actions
// ---------------------------------------------------------------------------

/// What the runtime reports to the workflow. `E` is the error of an activity
/// whose attempts have all failed.
pub enum Event<E> {
    /// The workflow starts, under this id.
    Started(String),
    /// Reserving stock ended, with the reservation id if it succeeded.
    InventoryReserved(Result<String, E>),
    /// Charging the payment ended, with the charge id if it succeeded.
    PaymentCharged(Result<String, E>),
    /// Shipping ended, with a summary if it succeeded.
    OrderShipped(Result<String, E>),
    /// Refunding the payment ended.
    PaymentRefunded(Result<(), E>),
    /// Releasing the stock ended.
    InventoryReleased(Result<(), E>),
}

/// The outcome of an activity with its text as characters.
pub open spec fn outcome_view<E>(outcome: Result<String, E>) -> Result<Seq<char>, E> {
    match outcome {
        Ok(text) => Ok(text@),
        Err(error) => Err(error),
    }
}

/// An event with its texts as characters.
#[verifier::ext_equal]
pub enum EventView<E> {
    Started(Seq<char>),
    InventoryReserved(Result<Seq<char>, E>),
    PaymentCharged(Result<Seq<char>, E>),
    OrderShipped(Result<Seq<char>, E>),
    PaymentRefunded(Result<(), E>),
    InventoryReleased(Result<(), E>),
}

impl<E> View for Event<E> {
    type V = EventView<E>;

    open spec fn view(&self) -> EventView<E> {
        match *self {
            Event::Started(workflow_id) => EventView::Started(workflow_id@),
            Event::InventoryReserved(outcome) => EventView::InventoryReserved(
                outcome_view(outcome),
            ),
            Event::PaymentCharged(outcome) => EventView::PaymentCharged(outcome_view(outcome)),
            Event::OrderShipped(outcome) => EventView::OrderShipped(outcome_view(outcome)),
            Event::PaymentRefunded(outcome) => EventView::PaymentRefunded(outcome),
            Event::InventoryReleased(outcome) => EventView::InventoryReleased(outcome),
        }
    }
}

/// What the workflow asks of the runtime.
pub enum Action<E> {
    /// Reserve stock.
    ReserveInventory(ReserveInventory, ActivityOptions),
    /// Charge the payment.
    ChargePayment(ChargePayment, ActivityOptions),
    /// Ship the order.
    ShipOrder(ShipOrder, ActivityOptions),
    /// Refund the charge with this id.
    RefundPayment(String, ActivityOptions),
    /// Release the reservation with this id.
    ReleaseInventory(String, ActivityOptions),
    /// End the workflow with this result.
    Finish(Result<String, E>),
}

/// An action with its texts as characters.
#[verifier::ext_equal]
pub enum ActionView<E> {
    ReserveInventory(ReserveInventoryView, ActivityOptionsView),
    ChargePayment(ChargePaymentView, ActivityOptionsView),
    ShipOrder(ShipOrderView, ActivityOptionsView),
    RefundPayment(Seq<char>, ActivityOptionsView),
    ReleaseInventory(Seq<char>, ActivityOptionsView),
    Finish(Result<Seq<char>, E>),
}

impl<E> View for Action<E> {
    type V = ActionView<E>;

    open spec fn view(&self) -> ActionView<E> {
        match *self {
            Action::ReserveInventory(input, options) => ActionView::ReserveInventory(
                input@,
                options@,
            ),
            Action::ChargePayment(input, options) => ActionView::ChargePayment(input@, options@),
            Action::ShipOrder(input, options) => ActionView::ShipOrder(input@, options@),
            Action::RefundPayment(charge_id, options) => ActionView::RefundPayment(
                charge_id@,
                options@,
            ),
            Action::ReleaseInventory(reservation_id, options) => ActionView::ReleaseInventory(
                reservation_id@,
                options@,
            ),
            Action::Finish(result) => ActionView::Finish(outcome_view(result)),
        }
    }
}

// ---------------------------------------------------------------------------
// The workflow's state
// ---------------------------------------------------------------------------

/// Why the workflow undoes its steps, and so what it ends with.
pub enum Cause<E> {
    /// It was asked to.
    CancelRequested,
    /// An activity failed with this error.
    Failed(E),
}

impl<E> Cause<E> {
    /// What the workflow ends with once everything is undone.
    pub open spec fn result(self) -> Result<Seq<char>, E> {
        match self {
            Cause::CancelRequested => Ok(CANCELLED@),
            Cause::Failed(error) => Err(error),
        }
    }
}

/// Which event the workflow waits for.
enum Stage<E> {
    Created,
    Reserving { payment_key: String },
    Charging,
    Shipping,
    Refunding(Cause<E>),
    Releasing(Cause<E>),
    Finished,
}

/// A stage with its texts as characters.
#[verifier::ext_equal]
pub enum StageView<E> {
    /// Waiting to be started.
    Created,
    /// Waiting for the reservation. The charge that follows has this key.
    Reserving { payment_key: Seq<char> },
    /// Waiting for the charge.
    Charging,
    /// Waiting for the shipment.
    Shipping,
    /// Waiting for the refund.
    Refunding(Cause<E>),
    /// Waiting for the release.
    Releasing(Cause<E>),
    /// Waiting for nothing.
    Finished,
}

impl<E> View for Stage<E> {
    type V = StageView<E>;

    closed spec fn view(&self) -> StageView<E> {
        match *self {
            Stage::Created => StageView::Created,
            Stage::Reserving { payment_key } => StageView::Reserving { payment_key: payment_key@ },
            Stage::Charging => StageView::Charging,
            Stage::Shipping => StageView::Shipping,
            Stage::Refunding(cause) => StageView::Refunding(cause),
            Stage::Releasing(cause) => StageView::Releasing(cause),
            Stage::Finished => StageView::Finished,
        }
    }
}

/// An optional text as characters.
pub open spec fn text_view(text: Option<String>) -> Option<Seq<char>> {
    match text {
        Some(text) => Some(text@),
        None => None,
    }
}

/// The state of an order workflow.
#[verifier::ext_equal]
pub struct OrderView<E> {
    pub request: OrderRequestView,
    pub status: OrderStatus,
    pub reservation_id: Option<Seq<char>>,
    pub charge_id: Option<Seq<char>>,
    pub cancel_requested: bool,
    pub stage: StageView<E>,
}

/// The state of a workflow that has not started.
pub open spec fn new_order<E>(request: OrderRequestView) -> OrderView<E> {
    OrderView {
        request,
        status: OrderStatus::Reserving,
        reservation_id: None,
        charge_id: None,
        cancel_requested: false,
        stage: StageView::Created,
    }
}

impl<E> OrderView<E> {
    /// What holds of every state: which status an observer sees at each stage,
    /// and which steps have been taken by then.
    pub open spec fn wf(self) -> bool {
        match self.stage {
            StageView::Created | StageView::Reserving { .. } => {
                &&& self.status == OrderStatus::Reserving
                &&& self.reservation_id is None
                &&& self.charge_id is None
            },
            StageView::Charging => {
                &&& self.status == OrderStatus::Charging
                &&& self.reservation_id is Some
                &&& self.charge_id is None
            },
            StageView::Shipping => {
                &&& self.status == OrderStatus::Shipping
                &&& self.reservation_id is Some
                &&& self.charge_id is Some
            },
            StageView::Refunding(_) => {
                &&& self.status == OrderStatus::Compensating
                &&& self.reservation_id is Some
                &&& self.charge_id is Some
            },
            StageView::Releasing(cause) => {
                &&& self.status == OrderStatus::Compensating
                &&& self.reservation_id is Some
                &&& cause is CancelRequested ==> self.charge_id is Some
            },
            StageView::Finished => {
                ||| {
                    &&& self.status == OrderStatus::Completed
                    &&& self.reservation_id is Some
                    &&& self.charge_id is Some
                }
                ||| {
                    &&& self.status == OrderStatus::Failed
                    &&& self.reservation_id is Some
                }
                ||| {
                    &&& self.status == OrderStatus::Reserving
                    &&& self.reservation_id is None
                    &&& self.charge_id is None
                }
            },
        }
    }

    /// Whether `event` is the one the workflow waits for.
    pub open spec fn expects(self, event: EventView<E>) -> bool {
        match self.stage {
            StageView::Created => event is Started,
            StageView::Reserving { .. } => event is InventoryReserved,
            StageView::Charging => event is PaymentCharged,
            StageView::Shipping => event is OrderShipped,
            StageView::Refunding(_) => event is PaymentRefunded,
            StageView::Releasing(_) => event is InventoryReleased,
            StageView::Finished => false,
        }
    }

    /// The workflow with a refund under way, and that refund.
    pub open spec fn refund(self, cause: Cause<E>) -> (OrderView<E>, ActionView<E>) {
        (
            OrderView {
                status: OrderStatus::Compensating,
                stage: StageView::Refunding(cause),
                ..self
            },
            ActionView::RefundPayment(
                self.charge_id->0,
                crate::options::compensation_options_view(),
            ),
        )
    }

    /// The workflow with a release under way, and that release.
    pub open spec fn release(self, cause: Cause<E>) -> (OrderView<E>, ActionView<E>) {
        (
            OrderView {
                status: OrderStatus::Compensating,
                stage: StageView::Releasing(cause),
                ..self
            },
            ActionView::ReleaseInventory(
                self.reservation_id->0,
                crate::options::compensation_options_view(),
            ),
        )
    }

    /// The workflow ended in the given status, and its result.
    pub open spec fn finish(self, status: OrderStatus, result: Result<Seq<char>, E>) -> (
        OrderView<E>,
        ActionView<E>,
    ) {
        (OrderView { status, stage: StageView::Finished, ..self }, ActionView::Finish(result))
    }

    /// Starting reserves stock, under a key that derives from the workflow.
    pub open spec fn on_started(self, workflow_id: Seq<char>) -> (OrderView<E>, ActionView<E>) {
        (
            OrderView {
                stage: StageView::Reserving { payment_key: payment_key_for(workflow_id) },
                ..self
            },
            ActionView::ReserveInventory(
                ReserveInventoryView {
                    order_id: self.request.order_id,
                    sku: self.request.sku,
                    quantity: self.request.quantity,
                    idempotency_key: reservation_key_for(workflow_id),
                },
                crate::options::inventory_options_view(),
            ),
        )
    }

    /// A reservation is followed by the charge. Without one there is nothing to
    /// undo: the workflow ends with the error, in the status it is in.
    pub open spec fn on_reserved(self, outcome: Result<Seq<char>, E>, payment_key: Seq<char>) -> (
        OrderView<E>,
        ActionView<E>,
    ) {
        match outcome {
            Ok(reservation_id) => (
                OrderView {
                    reservation_id: Some(reservation_id),
                    status: OrderStatus::Charging,
                    stage: StageView::Charging,
                    ..self
                },
                ActionView::ChargePayment(
                    ChargePaymentView {
                        order_id: self.request.order_id,
                        amount_cents: self.request.amount_cents,
                        idempotency_key: payment_key,
                    },
                    crate::options::payment_options_view(),
                ),
            ),
            Err(error) => self.finish(self.status, Err(error)),
        }
    }

    /// A charge is followed by shipping, or undone if the order was cancelled
    /// by then. A failed charge leaves only the stock to give back.
    pub open spec fn on_charged(self, outcome: Result<Seq<char>, E>) -> (
        OrderView<E>,
        ActionView<E>,
    ) {
        match outcome {
            Ok(charge_id) => {
                let charged = OrderView { charge_id: Some(charge_id), ..self };
                if self.cancel_requested {
                    charged.refund(Cause::CancelRequested)
                } else {
                    (
                        OrderView {
                            status: OrderStatus::Shipping,
                            stage: StageView::Shipping,
                            ..charged
                        },
                        ActionView::ShipOrder(
                            ShipOrderView {
                                order_id: self.request.order_id,
                                parcel_count: self.request.parcel_count,
                            },
                            crate::options::shipping_options_view(),
                        ),
                    )
                }
            },
            Err(error) => self.release(Cause::Failed(error)),
        }
    }

    /// A shipment completes the order. If it fails, everything is undone, the
    /// last step first.
    pub open spec fn on_shipped(self, outcome: Result<Seq<char>, E>) -> (
        OrderView<E>,
        ActionView<E>,
    ) {
        match outcome {
            Ok(summary) => self.finish(OrderStatus::Completed, Ok(summary)),
            Err(error) => self.refund(Cause::Failed(error)),
        }
    }

    /// The state after `event`, and the action that it calls for. What comes of
    /// undoing a step changes nothing: the rest is undone all the same.
    pub open spec fn next(self, event: EventView<E>) -> (OrderView<E>, ActionView<E>)
        recommends
            self.wf(),
            self.expects(event),
    {
        match (self.stage, event) {
            (StageView::Created, EventView::Started(workflow_id)) => self.on_started(workflow_id),
            (
                StageView::Reserving { payment_key },
                EventView::InventoryReserved(outcome),
            ) => self.on_reserved(outcome, payment_key),
            (StageView::Charging, EventView::PaymentCharged(outcome)) => self.on_charged(outcome),
            (StageView::Shipping, EventView::OrderShipped(outcome)) => self.on_shipped(outcome),
            (StageView::Refunding(cause), EventView::PaymentRefunded(_)) => self.release(cause),
            (StageView::Releasing(cause), EventView::InventoryReleased(_)) => self.finish(
                OrderStatus::Failed,
                cause.result(),
            ),
            _ => arbitrary(),
        }
    }

    /// The state after a request to cancel.
    pub open spec fn cancelled(self) -> OrderView<E> {
        OrderView { cancel_requested: true, ..self }
    }
}

/// The workflow of one order. Its fields are durable: replaying the recorded
/// events rebuilds them.
pub struct OrderWorkflow<E> {
    request: OrderRequest,
    status: OrderStatus,
    reservation_id: Option<String>,
    charge_id: Option<String>,
    cancel_requested: bool,
    stage: Stage<E>,
}

impl<E> View for OrderWorkflow<E> {
    type V = OrderView<E>;

    closed spec fn view(&self) -> OrderView<E> {
        OrderView {
            request: self.request@,
            status: self.status,
            reservation_id: text_view(self.reservation_id),
            charge_id: text_view(self.charge_id),
            cancel_requested: self.cancel_requested,
            stage: self.stage@,
        }
    }
}

/// The text of an id that is known to be there.
fn known(id: &Option<String>) -> (text: String)
    requires
        id is Some,
    ensures
        text@ == text_view(*id)->0,
{
    match id {
        Some(text) => text.clone(),
        None => String::new(),
    }
}

impl<E> OrderWorkflow<E> {
    /// A workflow for `request` that has not started.
    pub fn new(request: OrderRequest) -> (workflow: Self)
        ensures
            workflow@ == new_order::<E>(request@),
            workflow@.wf(),
    {
        OrderWorkflow {
            request,
            status: OrderStatus::Reserving,
            reservation_id: None,
            charge_id: None,
            cancel_requested: false,
            stage: Stage::Created,
        }
    }

    /// Whether `event` is the one the workflow waits for.
    pub fn expects(&self, event: &Event<E>) -> (expected: bool)
        ensures
            expected == self@.expects(event@),
    {
        match (&self.stage, event) {
            (Stage::Created, Event::Started(_)) => true,
            (Stage::Reserving { .. }, Event::InventoryReserved(_)) => true,
            (Stage::Charging, Event::PaymentCharged(_)) => true,
            (Stage::Shipping, Event::OrderShipped(_)) => true,
            (Stage::Refunding(_), Event::PaymentRefunded(_)) => true,
            (Stage::Releasing(_), Event::InventoryReleased(_)) => true,
            _ => false,
        }
    }

    /// Takes in the event that the workflow waits for, and returns what to do
    /// next.
    pub fn run(&mut self, event: Event<E>) -> (action: Action<E>)
        requires
            old(self)@.wf(),
            old(self)@.expects(event@),
        ensures
            final(self)@.wf(),
            (final(self)@, action@) == old(self)@.next(event@),
    {
        let mut stage = Stage::Finished;
        core::mem::swap(&mut stage, &mut self.stage);
        match (stage, event) {
            (Stage::Created, Event::Started(workflow_id)) => {
                let reservation_key = reservation_key(workflow_id.as_str());
                let payment_key = payment_key(workflow_id.as_str());
                self.stage = Stage::Reserving { payment_key };
                Action::ReserveInventory(
                    ReserveInventory {
                        order_id: self.request.order_id.clone(),
                        sku: self.request.sku.clone(),
                        quantity: self.request.quantity,
                        idempotency_key: reservation_key,
                    },
                    inventory_options(),
                )
            },
            (Stage::Reserving { payment_key }, Event::InventoryReserved(outcome)) => {
                match outcome {
                    Ok(reservation_id) => {
                        self.reservation_id = Some(reservation_id);
                        self.status = OrderStatus::Charging;
                        self.stage = Stage::Charging;
                        Action::ChargePayment(
                            ChargePayment {
                                order_id: self.request.order_id.clone(),
                                amount_cents: self.request.amount_cents,
                                idempotency_key: payment_key,
                            },
                            payment_options(),
                        )
                    },
                    // Nothing has been done that would have to be undone.
                    Err(error) => Action::Finish(Err(error)),
                }
            },
            (Stage::Charging, Event::PaymentCharged(outcome)) => {
                match outcome {
                    Ok(charge_id) => {
                        self.charge_id = Some(charge_id);
                        self.status = OrderStatus::Shipping;
                        // The request to cancel may have come while the
                        // payment was being charged.
                        if self.cancel_requested {
                            return self.refund(Cause::CancelRequested);
                        }
                        self.stage = Stage::Shipping;
                        Action::ShipOrder(
                            ShipOrder {
                                order_id: self.request.order_id.clone(),
                                parcel_count: self.request.parcel_count,
                            },
                            shipping_options(),
                        )
                    },
                    // The payment never succeeded: only the stock goes back.
                    Err(error) => self.release_inventory(Cause::Failed(error)),
                }
            },
            (Stage::Shipping, Event::OrderShipped(outcome)) => {
                match outcome {
                    Ok(summary) => {
                        self.status = OrderStatus::Completed;
                        Action::Finish(Ok(summary))
                    },
                    // Undo in reverse: first the charge, then the reservation.
                    Err(error) => self.refund(Cause::Failed(error)),
                }
            },
            // A failed refund must not keep the stock from being released.
            (Stage::Refunding(cause), Event::PaymentRefunded(_)) => self.release_inventory(cause),
            (Stage::Releasing(cause), Event::InventoryReleased(_)) => {
                self.status = OrderStatus::Failed;
                match cause {
                    Cause::CancelRequested => Action::Finish(Ok(CANCELLED.to_string())),
                    Cause::Failed(error) => Action::Finish(Err(error)),
                }
            },
            _ => {
                assert(false);
                Action::Finish(Ok(String::new()))
            },
        }
    }

    /// Asks for the order to be cancelled, which the workflow heeds once the
    /// payment has been charged.
    pub fn request_cancel(&mut self)
        ensures
            final(self)@ == old(self)@.cancelled(),
            old(self)@.wf() ==> final(self)@.wf(),
    {
        self.cancel_requested = true;
    }

    /// How far the order has come.
    pub fn status(&self) -> (status: OrderStatus)
        ensures
            status == self@.status,
    {
        self.status
    }

    /// The id of the charge, once there is one.
    pub fn charge_id(&self) -> (charge_id: Option<String>)
        ensures
            text_view(charge_id) == self@.charge_id,
    {
        self.charge_id.clone()
    }

    /// Starts to undo the charge.
    fn refund(&mut self, cause: Cause<E>) -> (action: Action<E>)
        requires
            old(self)@.charge_id is Some,
        ensures
            (final(self)@, action@) == old(self)@.refund(cause),
    {
        self.status = OrderStatus::Compensating;
        self.stage = Stage::Refunding(cause);
        Action::RefundPayment(known(&self.charge_id), compensation_options())
    }

    /// Starts to undo the reservation.
    fn release_inventory(&mut self, cause: Cause<E>) -> (action: Action<E>)
        requires
            old(self)@.reservation_id is Some,
        ensures
            (final(self)@, action@) == old(self)@.release(cause),
    {
        self.status = OrderStatus::Compensating;
        self.stage = Stage::Releasing(cause);
        Action::ReleaseInventory(known(&self.reservation_id), compensation_options())
    }
}

} // verus!
