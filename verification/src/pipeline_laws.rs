//! What holds of the pipeline as a whole: a workflow together with the
//! activities that carry out its actions.

use vstd::prelude::*;

use crate::activities::{ActivityErrorView, ChargePaymentView, ReserveInventoryView};
use crate::deps::{DepsView, KEY_PREFIX_BYTES};
use crate::workflow::{ActionView, EventView, OrderRequestView, OrderStatus, OrderView, CANCELLED};

verus! {

/// What the world around an order decides.
pub struct Circumstances {
    /// What comes of shipping.
    pub shipping: Result<Seq<char>, ActivityErrorView>,
}

/// An order under way: its workflow, what the activities work against, and the
/// action that the workflow asked for last.
#[verifier::ext_equal]
pub struct Pipeline {
    pub order: OrderView<ActivityErrorView>,
    pub deps: DepsView,
    pub action: ActionView<ActivityErrorView>,
}

/// Carries out an action: the dependencies afterwards, and the event that
/// reports what came of it.
pub open spec fn carry_out(
    deps: DepsView,
    action: ActionView<ActivityErrorView>,
    circumstances: Circumstances,
) -> (DepsView, EventView<ActivityErrorView>)
    recommends
        !(action is Finish),
{
    match action {
        ActionView::ReserveInventory(input, _) => (
            deps.after_reserve_inventory(input),
            EventView::InventoryReserved(deps.reserve_inventory_result(input)),
        ),
        ActionView::ChargePayment(input, _) => {
            let (after, outcome, _) = crate::activity_laws::charge_with_retries(deps, input, 1);
            (after, EventView::PaymentCharged(outcome))
        },
        ActionView::ShipOrder(_, _) => (deps, EventView::OrderShipped(circumstances.shipping)),
        ActionView::RefundPayment(_, _) => (deps, EventView::PaymentRefunded(Ok(()))),
        ActionView::ReleaseInventory(reservation_id, _) => (
            deps.after_release_inventory(reservation_id),
            EventView::InventoryReleased(Ok(())),
        ),
        ActionView::Finish(_) => arbitrary(),
    }
}

impl Pipeline {
    /// The pipeline after its action was carried out.
    pub open spec fn step(self, circumstances: Circumstances) -> Pipeline {
        let (deps, event) = carry_out(self.deps, self.action, circumstances);
        let (order, action) = self.order.next(event);
        Pipeline { order, deps, action }
    }

    /// The pipeline with a request to cancel.
    pub open spec fn cancel(self) -> Pipeline {
        Pipeline { order: self.order.cancelled(), ..self }
    }

    /// The pipeline after its workflow has ended, or after `steps` steps.
    pub open spec fn settle(self, circumstances: Circumstances, steps: nat) -> Pipeline
        decreases steps,
    {
        if steps == 0 || self.action is Finish {
            self
        } else {
            self.step(circumstances).settle(circumstances, (steps - 1) as nat)
        }
    }

    /// The pipeline in the end. An order asks for five things at most before it
    /// ends.
    pub open spec fn end(self, circumstances: Circumstances) -> Pipeline {
        self.settle(circumstances, 5)
    }
}

/// The pipeline as an order starts.
pub open spec fn started(deps: DepsView, request: OrderRequestView) -> Pipeline {
    let (order, action) = crate::workflow::new_order::<ActivityErrorView>(request).next(
        EventView::Started(crate::workflow::workflow_id_for(request.order_id)),
    );
    Pipeline { order, deps, action }
}

/// The key under which the stock of an order is reserved.
pub open spec fn reservation_key_of(request: OrderRequestView) -> Seq<char> {
    crate::workflow::reservation_key_for(crate::workflow::workflow_id_for(request.order_id))
}

/// The key under which an order is charged.
pub open spec fn payment_key_of(request: OrderRequestView) -> Seq<char> {
    crate::workflow::payment_key_for(crate::workflow::workflow_id_for(request.order_id))
}

/// What it takes to reserve the stock of an order.
pub open spec fn reservation_input(request: OrderRequestView) -> ReserveInventoryView {
    ReserveInventoryView {
        order_id: request.order_id,
        sku: request.sku,
        quantity: request.quantity,
        idempotency_key: reservation_key_of(request),
    }
}

/// What it takes to charge an order.
pub open spec fn charge_input(request: OrderRequestView) -> ChargePaymentView {
    ChargePaymentView {
        order_id: request.order_id,
        amount_cents: request.amount_cents,
        idempotency_key: payment_key_of(request),
    }
}

/// Whether nothing of this order is on record. The database is one that only
/// activities write to, so every reservation has the id of its key.
pub open spec fn is_new(deps: DepsView, request: OrderRequestView) -> bool {
    &&& crate::activity_laws::ids_follow_keys(deps.db)
    &&& !deps.db.reservations.contains_key(reservation_key_of(request))
    &&& !deps.db.charges.contains_key(payment_key_of(request))
}

/// An order whose card is declined is settled without a trace: it fails, the
/// stock that was reserved for it is free again, and nothing is charged.
pub proof fn a_declined_order_leaves_nothing_behind(
    deps: DepsView,
    request: OrderRequestView,
    circumstances: Circumstances,
)
    requires
        request.quantity > 0,
        crate::deps::is_declined(request.order_id),
        is_new(deps, request),
    ensures
        ({
            let end = started(deps, request).end(circumstances);
            &&& end.action matches ActionView::Finish(Err(_))
            &&& end.order.status == OrderStatus::Failed
            &&& end.order.charge_id is None
            &&& end.deps.db == deps.db
            &&& end.deps.payments.calls == crate::deps::counted(deps.payments.calls)
        }),
{
    reveal_with_fuel(Pipeline::settle, 6);
    reveal_with_fuel(crate::activity_laws::charge_with_retries, 2);
    crate::activity_laws::releasing_undoes_reserving(deps, reservation_input(request));
}

/// An order whose card is good and that ships is completed, with the summary of the
/// shipment, and its reservation and its charge are on record under its keys.
pub proof fn an_order_that_ships_is_completed(
    deps: DepsView,
    request: OrderRequestView,
    circumstances: Circumstances,
)
    requires
        request.quantity > 0,
        !crate::deps::is_declined(request.order_id),
        crate::text::can_cut(payment_key_of(request), KEY_PREFIX_BYTES as nat),
        is_new(deps, request),
        circumstances.shipping is Ok,
    ensures
        ({
            let end = started(deps, request).end(circumstances);
            let charge_id = crate::deps::charge_id_for(
                request.amount_cents,
                payment_key_of(request),
            );
            &&& end.action == ActionView::Finish(circumstances.shipping)
            &&& end.order.status == OrderStatus::Completed
            &&& end.order.charge_id == Some(charge_id)
            &&& end.deps.db.charges == deps.db.charges.insert(payment_key_of(request), charge_id)
            &&& end.deps.db.reservations == deps.db.reservations.insert(
                reservation_key_of(request),
                crate::activities::reservation_id_for(reservation_key_of(request)),
            )
        }),
{
    reveal_with_fuel(Pipeline::settle, 6);
    let reserved = started(deps, request).step(circumstances);
    crate::activity_laws::retries_ride_out_a_flaky_gateway(reserved.deps, charge_input(request));
}

/// An order whose card is good but that does not ship fails with the error of
/// the shipment. Its stock is free again; the record of its charge stays, so that no
/// later attempt charges it again.
pub proof fn an_order_that_does_not_ship_is_undone(
    deps: DepsView,
    request: OrderRequestView,
    circumstances: Circumstances,
)
    requires
        request.quantity > 0,
        !crate::deps::is_declined(request.order_id),
        crate::text::can_cut(payment_key_of(request), KEY_PREFIX_BYTES as nat),
        is_new(deps, request),
        circumstances.shipping is Err,
    ensures
        ({
            let end = started(deps, request).end(circumstances);
            let charge_id = crate::deps::charge_id_for(
                request.amount_cents,
                payment_key_of(request),
            );
            &&& end.action == ActionView::Finish(circumstances.shipping)
            &&& end.order.status == OrderStatus::Failed
            &&& end.deps.db.reservations == deps.db.reservations
            &&& end.deps.db.charges == deps.db.charges.insert(payment_key_of(request), charge_id)
        }),
{
    reveal_with_fuel(Pipeline::settle, 6);
    let reserved = started(deps, request).step(circumstances);
    crate::activity_laws::retries_ride_out_a_flaky_gateway(reserved.deps, charge_input(request));
    crate::activity_laws::releasing_undoes_reserving(deps, reservation_input(request));
}

/// An order that is cancelled while its stock is reserved or its payment charged
/// ends without an error, as a failed order whose stock is free again.
pub proof fn a_cancelled_order_is_undone(
    deps: DepsView,
    request: OrderRequestView,
    circumstances: Circumstances,
)
    requires
        request.quantity > 0,
        !crate::deps::is_declined(request.order_id),
        crate::text::can_cut(payment_key_of(request), KEY_PREFIX_BYTES as nat),
        is_new(deps, request),
    ensures
        ({
            let end = started(deps, request).cancel().end(circumstances);
            &&& end.action == ActionView::Finish(Ok::<Seq<char>, ActivityErrorView>(CANCELLED@))
            &&& end.order.status == OrderStatus::Failed
            &&& end.deps.db.reservations == deps.db.reservations
            &&& started(deps, request).step(circumstances).cancel().settle(circumstances, 4) == end
        }),
{
    reveal_with_fuel(Pipeline::settle, 6);
    let reserved = started(deps, request).cancel().step(circumstances);
    crate::activity_laws::retries_ride_out_a_flaky_gateway(reserved.deps, charge_input(request));
    crate::activity_laws::releasing_undoes_reserving(deps, reservation_input(request));
}

} // verus!
