//! What holds of every order, over everything that can happen to its workflow.

use vstd::prelude::*;

use crate::activities::{ChargePaymentView, ReserveInventoryView, ShipOrderView};
use crate::workflow::{
    ActionView, Cause, EventView, OrderRequestView, OrderStatus, OrderView, StageView, CANCELLED,
};

verus! {

// ---------------------------------------------------------------------------
// Histories
// ---------------------------------------------------------------------------

/// Something that happens to a workflow.
#[verifier::ext_equal]
pub enum Input<E> {
    /// Somebody asks for the order to be cancelled.
    Cancel,
    /// The runtime reports an event.
    Event(EventView<E>),
}

impl<E> OrderView<E> {
    /// Whether `input` can happen in this state.
    pub open spec fn accepts(self, input: Input<E>) -> bool {
        match input {
            Input::Cancel => true,
            Input::Event(event) => self.expects(event),
        }
    }

    /// The state after `input`.
    pub open spec fn after(self, input: Input<E>) -> OrderView<E> {
        match input {
            Input::Cancel => self.cancelled(),
            Input::Event(event) => self.next(event).0,
        }
    }

    /// The actions that `input` calls for: one for an event, none for a request
    /// to cancel.
    pub open spec fn answers(self, input: Input<E>) -> Seq<ActionView<E>> {
        match input {
            Input::Cancel => Seq::empty(),
            Input::Event(event) => seq![self.next(event).1],
        }
    }
}

/// The state after everything in `history`, from `order` on.
pub open spec fn replay<E>(order: OrderView<E>, history: Seq<Input<E>>) -> OrderView<E>
    decreases history.len(),
{
    if history.len() == 0 {
        order
    } else {
        replay(order, history.drop_last()).after(history.last())
    }
}

/// Every action that `history` calls for, from `order` on.
pub open spec fn actions<E>(order: OrderView<E>, history: Seq<Input<E>>) -> Seq<ActionView<E>>
    decreases history.len(),
{
    if history.len() == 0 {
        Seq::empty()
    } else {
        actions(order, history.drop_last()) + replay(order, history.drop_last()).answers(
            history.last(),
        )
    }
}

/// Whether `history` can happen to `order`: each event comes when the workflow
/// waits for it.
pub open spec fn is_history<E>(order: OrderView<E>, history: Seq<Input<E>>) -> bool
    decreases history.len(),
{
    history.len() == 0 || {
        &&& is_history(order, history.drop_last())
        &&& replay(order, history.drop_last()).accepts(history.last())
    }
}

/// Whether `event` occurs in `history`.
pub open spec fn occurred<E>(history: Seq<Input<E>>, event: EventView<E>) -> bool {
    history.contains(Input::Event(event))
}

/// Whether `earlier` happens in `history`, and `later` after it.
pub open spec fn came_before<E>(
    history: Seq<Input<E>>,
    earlier: Input<E>,
    later: Input<E>,
) -> bool {
    exists|i: int, j: int|
        0 <= i < j < history.len() && #[trigger] history[i] == earlier && #[trigger] history[j]
            == later
}

/// Whether the workflow is started under no id but `workflow_id`.
pub open spec fn started_as<E>(history: Seq<Input<E>>, workflow_id: Seq<char>) -> bool {
    forall|id: Seq<char>| occurred(history, EventView::<E>::Started(id)) ==> id == workflow_id
}

/// How many events there are in `history`.
pub open spec fn event_count<E>(history: Seq<Input<E>>) -> nat
    decreases history.len(),
{
    if history.len() == 0 {
        0
    } else {
        event_count(history.drop_last()) + if history.last() is Event {
            1nat
        } else {
            0nat
        }
    }
}

// ---------------------------------------------------------------------------
// The actions of an order
// ---------------------------------------------------------------------------

/// The reservation that an order asks for.
pub open spec fn reservation_of<E>(
    request: OrderRequestView,
    workflow_id: Seq<char>,
) -> ActionView<E> {
    ActionView::ReserveInventory(
        ReserveInventoryView {
            order_id: request.order_id,
            sku: request.sku,
            quantity: request.quantity,
            idempotency_key: crate::workflow::reservation_key_for(workflow_id),
        },
        crate::options::inventory_options_view(),
    )
}

/// The charge that an order asks for.
pub open spec fn charge_of<E>(request: OrderRequestView, workflow_id: Seq<char>) -> ActionView<E> {
    ActionView::ChargePayment(
        ChargePaymentView {
            order_id: request.order_id,
            amount_cents: request.amount_cents,
            idempotency_key: crate::workflow::payment_key_for(workflow_id),
        },
        crate::options::payment_options_view(),
    )
}

/// The shipment that an order asks for.
pub open spec fn shipment_of<E>(request: OrderRequestView) -> ActionView<E> {
    ActionView::ShipOrder(
        ShipOrderView { order_id: request.order_id, parcel_count: request.parcel_count },
        crate::options::shipping_options_view(),
    )
}

/// The refund of a charge.
pub open spec fn refund_of<E>(charge_id: Seq<char>) -> ActionView<E> {
    ActionView::RefundPayment(charge_id, crate::options::compensation_options_view())
}

/// The release of a reservation.
pub open spec fn release_of<E>(reservation_id: Seq<char>) -> ActionView<E> {
    ActionView::ReleaseInventory(reservation_id, crate::options::compensation_options_view())
}

// ---------------------------------------------------------------------------
// The ways an order can end
// ---------------------------------------------------------------------------

/// An order, the id of its workflow, what happened to it, the state it is in
/// and the actions it asked for.
pub struct Course<E> {
    pub request: OrderRequestView,
    pub workflow_id: Seq<char>,
    pub history: Seq<Input<E>>,
    pub end: OrderView<E>,
    pub asked: Seq<ActionView<E>>,
}

impl<E> Course<E> {
    /// Stock was reserved, under the id that the state holds.
    pub open spec fn reserved(self) -> bool {
        &&& self.end.reservation_id matches Some(id)
        &&& occurred(self.history, EventView::InventoryReserved(Ok(id)))
    }

    /// The payment was charged, under the id that the state holds.
    pub open spec fn charged(self) -> bool {
        &&& self.end.charge_id matches Some(id)
        &&& occurred(self.history, EventView::PaymentCharged(Ok(id)))
    }

    /// Somebody asked to cancel before the charge that the state holds was made.
    pub open spec fn cancelled_in_time(self) -> bool {
        &&& self.end.charge_id matches Some(id)
        &&& came_before(
            self.history,
            Input::Cancel,
            Input::Event(EventView::PaymentCharged(Ok(id))),
        )
    }

    /// The reservation failed: nothing was done, and the order ends with that
    /// error.
    pub open spec fn not_reserved(self, error: E) -> bool {
        &&& self.end.status == OrderStatus::Reserving
        &&& self.end.reservation_id is None
        &&& self.end.charge_id is None
        &&& occurred(self.history, EventView::InventoryReserved(Err(error)))
        &&& self.asked =~= seq![
            reservation_of::<E>(self.request, self.workflow_id),
            ActionView::Finish(Err(error)),
        ]
    }

    /// The charge failed: the stock was released, and the order ends with that
    /// error.
    pub open spec fn not_charged(self, error: E) -> bool {
        &&& self.end.status == OrderStatus::Failed
        &&& self.reserved()
        &&& self.end.charge_id is None
        &&& occurred(self.history, EventView::PaymentCharged(Err(error)))
        &&& self.asked =~= seq![
            reservation_of::<E>(self.request, self.workflow_id),
            charge_of::<E>(self.request, self.workflow_id),
            release_of::<E>(self.end.reservation_id->0),
            ActionView::Finish(Err(error)),
        ]
    }

    /// The order was cancelled before it was charged: the charge was refunded and
    /// then the stock released, without anything being shipped.
    pub open spec fn called_off(self) -> bool {
        &&& self.end.status == OrderStatus::Failed
        &&& self.reserved()
        &&& self.charged()
        &&& self.cancelled_in_time()
        &&& self.asked =~= seq![
            reservation_of::<E>(self.request, self.workflow_id),
            charge_of::<E>(self.request, self.workflow_id),
            refund_of::<E>(self.end.charge_id->0),
            release_of::<E>(self.end.reservation_id->0),
            ActionView::Finish(Ok(CANCELLED@)),
        ]
    }

    /// Shipping failed: the charge was refunded and then the stock released,
    /// and the order ends with that error.
    pub open spec fn not_shipped(self, error: E) -> bool {
        &&& self.end.status == OrderStatus::Failed
        &&& self.reserved()
        &&& self.charged()
        &&& !self.cancelled_in_time()
        &&& occurred(self.history, EventView::OrderShipped(Err(error)))
        &&& self.asked =~= seq![
            reservation_of::<E>(self.request, self.workflow_id),
            charge_of::<E>(self.request, self.workflow_id),
            shipment_of::<E>(self.request),
            refund_of::<E>(self.end.charge_id->0),
            release_of::<E>(self.end.reservation_id->0),
            ActionView::Finish(Err(error)),
        ]
    }

    /// The order was shipped: nothing was undone, and it ends with the summary.
    pub open spec fn completed(self, summary: Seq<char>) -> bool {
        &&& self.end.status == OrderStatus::Completed
        &&& self.reserved()
        &&& self.charged()
        &&& !self.cancelled_in_time()
        &&& occurred(self.history, EventView::OrderShipped(Ok(summary)))
        &&& self.asked =~= seq![
            reservation_of::<E>(self.request, self.workflow_id),
            charge_of::<E>(self.request, self.workflow_id),
            shipment_of::<E>(self.request),
            ActionView::Finish(Ok(summary)),
        ]
    }

    /// The order ended in one of the five ways.
    pub open spec fn ended(self) -> bool {
        ||| exists|error: E| self.not_reserved(error)
        ||| exists|error: E| self.not_charged(error)
        ||| self.called_off()
        ||| exists|error: E| self.not_shipped(error)
        ||| exists|summary: Seq<char>| self.completed(summary)
    }

    /// What the order has asked for by the stage it is at.
    spec fn on_course(self) -> bool {
        let reservation = reservation_of::<E>(self.request, self.workflow_id);
        let charge = charge_of::<E>(self.request, self.workflow_id);
        let shipment = shipment_of::<E>(self.request);
        &&& self.end.wf()
        &&& self.end.request == self.request
        &&& self.end.cancel_requested <==> self.history.contains(Input::Cancel)
        &&& match self.end.stage {
            StageView::Created => self.asked == Seq::<ActionView<E>>::empty(),
            StageView::Reserving { payment_key } => {
                &&& payment_key == crate::workflow::payment_key_for(self.workflow_id)
                &&& self.asked =~= seq![reservation]
            },
            StageView::Charging => {
                &&& self.reserved()
                &&& self.asked =~= seq![reservation, charge]
            },
            StageView::Shipping => {
                &&& self.reserved()
                &&& self.charged()
                &&& !self.cancelled_in_time()
                &&& self.asked =~= seq![reservation, charge, shipment]
            },
            StageView::Refunding(cause) => {
                let refund = refund_of::<E>(self.end.charge_id->0);
                &&& self.reserved()
                &&& self.charged()
                &&& match cause {
                    Cause::CancelRequested => {
                        &&& self.cancelled_in_time()
                        &&& self.asked =~= seq![reservation, charge, refund]
                    },
                    Cause::Failed(error) => {
                        &&& !self.cancelled_in_time()
                        &&& occurred(self.history, EventView::OrderShipped(Err(error)))
                        &&& self.asked =~= seq![reservation, charge, shipment, refund]
                    },
                }
            },
            StageView::Releasing(cause) => {
                let refund = refund_of::<E>(self.end.charge_id->0);
                let release = release_of::<E>(self.end.reservation_id->0);
                &&& self.reserved()
                &&& match cause {
                    Cause::CancelRequested => {
                        &&& self.charged()
                        &&& self.cancelled_in_time()
                        &&& self.asked =~= seq![reservation, charge, refund, release]
                    },
                    Cause::Failed(error) => if self.end.charge_id is None {
                        &&& occurred(self.history, EventView::PaymentCharged(Err(error)))
                        &&& self.asked =~= seq![reservation, charge, release]
                    } else {
                        &&& self.charged()
                        &&& !self.cancelled_in_time()
                        &&& occurred(self.history, EventView::OrderShipped(Err(error)))
                        &&& self.asked =~= seq![reservation, charge, shipment, refund, release]
                    },
                }
            },
            StageView::Finished => self.ended(),
        }
    }
}

/// The course of an order through `history`.
pub open spec fn course<E>(
    request: OrderRequestView,
    workflow_id: Seq<char>,
    history: Seq<Input<E>>,
) -> Course<E> {
    let order = crate::workflow::new_order::<E>(request);
    Course {
        request,
        workflow_id,
        history,
        end: replay(order, history),
        asked: actions(order, history),
    }
}

/// What has happened is what had happened before and what happened last.
proof fn lemma_one_more<E>(history: Seq<Input<E>>, input: Input<E>)
    requires
        history.len() > 0,
    ensures
        history.contains(input) <==> history.drop_last().contains(input) || history.last() == input,
{
    let before = history.drop_last();
    if history.contains(input) {
        let i = choose|i: int| 0 <= i < history.len() && history[i] == input;
        assert(i < before.len() ==> before[i] == input);
    }
    if before.contains(input) {
        let i = choose|i: int| 0 <= i < before.len() && before[i] == input;
        assert(history[i] == input);
    }
    assert(history[history.len() - 1] == history.last());
}

/// What came first did so before, or else came before what happened last.
proof fn lemma_one_more_in_order<E>(history: Seq<Input<E>>, earlier: Input<E>, later: Input<E>)
    requires
        history.len() > 0,
    ensures
        came_before(history, earlier, later) <==> {
            ||| came_before(history.drop_last(), earlier, later)
            ||| history.drop_last().contains(earlier) && history.last() == later
        },
{
    let before = history.drop_last();
    if came_before(history, earlier, later) {
        let (i, j) = choose|i: int, j: int|
            0 <= i < j < history.len() && #[trigger] history[i] == earlier && #[trigger] history[j]
                == later;
        assert(before[i] == earlier);
        assert(j < before.len() ==> before[j] == later);
    }
    if came_before(before, earlier, later) {
        let (i, j) = choose|i: int, j: int|
            0 <= i < j < before.len() && #[trigger] before[i] == earlier && #[trigger] before[j]
                == later;
        assert(history[i] == earlier && history[j] == later);
    }
    if before.contains(earlier) && history.last() == later {
        let i = choose|i: int| 0 <= i < before.len() && before[i] == earlier;
        assert(history[i] == earlier && history[history.len() - 1] == later);
    }
}

/// An order is on course, whatever happens to it.
proof fn lemma_on_course<E>(
    request: OrderRequestView,
    workflow_id: Seq<char>,
    history: Seq<Input<E>>,
)
    requires
        is_history(crate::workflow::new_order::<E>(request), history),
        started_as(history, workflow_id),
    ensures
        course(request, workflow_id, history).on_course(),
    decreases history.len(),
{
    let order = crate::workflow::new_order::<E>(request);
    if history.len() > 0 {
        let before = history.drop_last();
        let input = history.last();
        assert forall|earlier: Input<E>| before.contains(earlier) implies history.contains(
            earlier,
        ) by {
            lemma_one_more(history, earlier);
        }
        lemma_one_more(history, input);
        assert forall|id: Seq<char>| occurred(before, EventView::<E>::Started(id)) implies id
            == workflow_id by {
            assert(occurred(history, EventView::<E>::Started(id)));
        }
        lemma_one_more(history, Input::Cancel);
        assert forall|later: Input<E>|
            #[trigger] came_before(history, Input::Cancel, later) <==> {
                ||| came_before(before, Input::Cancel, later)
                ||| before.contains(Input::Cancel) && input == later
            } by {
            lemma_one_more_in_order(history, Input::Cancel, later);
        }
        lemma_on_course(request, workflow_id, before);
        let past = course(request, workflow_id, before);
        let now = course(request, workflow_id, history);
        assert(past.on_course());
        match input {
            Input::Cancel => {
                assert(now.asked =~= past.asked);
                assert(now.end == past.end.cancelled());
                if past.end.stage is Finished {
                    if exists|error: E| past.not_reserved(error) {
                        let error = choose|error: E| past.not_reserved(error);
                        assert(now.not_reserved(error));
                    } else if exists|error: E| past.not_charged(error) {
                        let error = choose|error: E| past.not_charged(error);
                        assert(now.not_charged(error));
                    } else if past.called_off() {
                        assert(now.called_off());
                    } else if exists|error: E| past.not_shipped(error) {
                        let error = choose|error: E| past.not_shipped(error);
                        assert(now.not_shipped(error));
                    } else {
                        let summary = choose|summary: Seq<char>| past.completed(summary);
                        assert(now.completed(summary));
                    }
                }
            },
            Input::Event(event) => {
                assert(now.asked == past.asked + seq![past.end.next(event).1]);
                match event {
                    EventView::Started(id) => {
                        assert(occurred(history, EventView::<E>::Started(id)));
                        assert(now.on_course());
                    },
                    EventView::InventoryReserved(Err(error)) => {
                        assert(now.asked =~= seq![
                            reservation_of::<E>(request, workflow_id),
                            ActionView::Finish(Err(error)),
                        ]);
                        assert(now.not_reserved(error));
                    },
                    EventView::InventoryReserved(Ok(id)) => {
                        assert(now.asked =~= seq![
                            reservation_of::<E>(request, workflow_id),
                            charge_of::<E>(request, workflow_id),
                        ]);
                        assert(occurred(history, event));
                        assert(now.on_course());
                    },
                    EventView::PaymentCharged(_) => {
                        assert(now.on_course());
                    },
                    EventView::OrderShipped(Ok(summary)) => {
                        assert(now.completed(summary));
                    },
                    EventView::OrderShipped(Err(error)) => {
                        assert(now.on_course());
                    },
                    EventView::PaymentRefunded(_) => {
                        assert(now.on_course());
                    },
                    EventView::InventoryReleased(_) => {
                        let cause = past.end.stage->Releasing_0;
                        match cause {
                            Cause::CancelRequested => {
                                assert(now.called_off());
                            },
                            Cause::Failed(error) => {
                                if past.end.charge_id is None {
                                    assert(now.not_charged(error));
                                } else {
                                    assert(now.not_shipped(error));
                                }
                            },
                        }
                    },
                }
            },
        }
    }
}

// ---------------------------------------------------------------------------
// Laws
// ---------------------------------------------------------------------------

/// Whatever happens to an order, its state is sound: the status that observers
/// see fits the steps taken, and the request is never altered.
pub proof fn every_state_is_sound<E>(request: OrderRequestView, history: Seq<Input<E>>)
    requires
        is_history(crate::workflow::new_order::<E>(request), history),
    ensures
        replay(crate::workflow::new_order::<E>(request), history).wf(),
        replay(crate::workflow::new_order::<E>(request), history).request == request,
    decreases history.len(),
{
    if history.len() > 0 {
        every_state_is_sound(request, history.drop_last());
    }
}

/// An order that has ended did so in one of five ways, each with the actions it
/// asked for from first to last. In particular what was done is undone in
/// reverse order whenever a later step fails, a charged order is called off
/// exactly if somebody asked for that before the charge, and a completed order
/// is never undone.
pub proof fn every_order_ends_in_one_of_five_ways<E>(
    request: OrderRequestView,
    workflow_id: Seq<char>,
    history: Seq<Input<E>>,
)
    requires
        is_history(crate::workflow::new_order::<E>(request), history),
        started_as(history, workflow_id),
        replay(crate::workflow::new_order::<E>(request), history).stage is Finished,
    ensures
        course(request, workflow_id, history).ended(),
{
    lemma_on_course(request, workflow_id, history);
}

/// Whether an observer who sees one status may see the other next.
pub open spec fn may_become(from: OrderStatus, to: OrderStatus) -> bool {
    match from {
        OrderStatus::Reserving => to == OrderStatus::Reserving || to == OrderStatus::Charging,
        OrderStatus::Charging => {
            ||| to == OrderStatus::Charging
            ||| to == OrderStatus::Shipping
            ||| to == OrderStatus::Compensating
        },
        OrderStatus::Shipping => {
            ||| to == OrderStatus::Shipping
            ||| to == OrderStatus::Completed
            ||| to == OrderStatus::Compensating
        },
        OrderStatus::Compensating => to == OrderStatus::Compensating || to == OrderStatus::Failed,
        OrderStatus::Completed => to == OrderStatus::Completed,
        OrderStatus::Failed => to == OrderStatus::Failed,
    }
}

/// The status only moves forward, whatever happens next: a step is never
/// repeated, and completed and failed are final.
pub proof fn the_status_only_moves_forward<E>(order: OrderView<E>, input: Input<E>)
    requires
        order.wf(),
        order.accepts(input),
    ensures
        may_become(order.status, order.after(input).status),
{
}

/// Replaying a history in two parts leads where replaying it at once does, and
/// asks for the same actions in the same order: a workflow that is picked up by
/// another process goes on exactly where it stopped.
pub proof fn replay_goes_on_where_it_stopped<E>(
    order: OrderView<E>,
    first: Seq<Input<E>>,
    rest: Seq<Input<E>>,
)
    ensures
        replay(order, first + rest) == replay(replay(order, first), rest),
        actions(order, first + rest) == actions(order, first) + actions(
            replay(order, first),
            rest,
        ),
        is_history(order, first + rest) <==> is_history(order, first) && is_history(
            replay(order, first),
            rest,
        ),
    decreases rest.len(),
{
    if rest.len() == 0 {
        assert(first + rest =~= first);
    } else {
        assert((first + rest).drop_last() =~= first + rest.drop_last());
        assert((first + rest).last() == rest.last());
        replay_goes_on_where_it_stopped(order, first, rest.drop_last());
        assert(actions(order, first + rest) =~= actions(order, first) + actions(
            replay(order, first),
            rest,
        ));
    }
}

/// The most events that can have happened by a stage.
spec fn most_events<E>(stage: StageView<E>) -> nat {
    match stage {
        StageView::Created => 0,
        StageView::Reserving { .. } => 1,
        StageView::Charging => 2,
        StageView::Shipping => 3,
        StageView::Refunding(_) => 4,
        StageView::Releasing(_) => 5,
        StageView::Finished => 6,
    }
}

/// By its stage, an order has taken in a bounded number of events.
proof fn lemma_most_events<E>(request: OrderRequestView, history: Seq<Input<E>>)
    requires
        is_history(crate::workflow::new_order::<E>(request), history),
    ensures
        event_count(history) <= most_events(
            replay(crate::workflow::new_order::<E>(request), history).stage,
        ),
    decreases history.len(),
{
    if history.len() > 0 {
        lemma_most_events(request, history.drop_last());
    }
}

/// Every order ends: there are never more than six events, and the sixth is
/// the last.
pub proof fn every_order_ends_within_six_events<E>(
    request: OrderRequestView,
    history: Seq<Input<E>>,
)
    requires
        is_history(crate::workflow::new_order::<E>(request), history),
    ensures
        event_count(history) <= 6,
        event_count(history) == 6 ==> replay(
            crate::workflow::new_order::<E>(request),
            history,
        ).stage is Finished,
{
    lemma_most_events(request, history);
}

/// Only what was done is undone: a refund is asked for the charge on record and
/// a release for the reservation on record, and so only once there is one.
pub proof fn only_what_was_done_is_undone<E>(
    request: OrderRequestView,
    history: Seq<Input<E>>,
    asked: ActionView<E>,
)
    requires
        is_history(crate::workflow::new_order::<E>(request), history),
        actions(crate::workflow::new_order::<E>(request), history).contains(asked),
    ensures
        asked matches ActionView::RefundPayment(charge_id, _) ==> replay(
            crate::workflow::new_order::<E>(request),
            history,
        ).charge_id == Some(charge_id) && occurred(
            history,
            EventView::PaymentCharged(Ok(charge_id)),
        ),
        asked matches ActionView::ReleaseInventory(reservation_id, _) ==> replay(
            crate::workflow::new_order::<E>(request),
            history,
        ).reservation_id == Some(reservation_id) && occurred(
            history,
            EventView::InventoryReserved(Ok(reservation_id)),
        ),
    decreases history.len(),
{
    let order = crate::workflow::new_order::<E>(request);
    let before = history.drop_last();
    let input = history.last();
    every_state_is_sound(request, before);
    match asked {
        ActionView::RefundPayment(id, _) => an_id_on_record_is_that_of_a_step(request, history, id),
        ActionView::ReleaseInventory(id, _) => {
            an_id_on_record_is_that_of_a_step(request, history, id)
        },
        _ => {},
    }
    let i = choose|i: int|
        0 <= i < actions(order, history).len() && actions(order, history)[i] == asked;
    if i < actions(order, before).len() {
        assert(actions(order, before)[i] == asked);
        only_what_was_done_is_undone(request, before, asked);
        lemma_ids_are_kept(replay(order, before), input);
    } else {
        assert(replay(order, before).answers(input)[i - actions(order, before).len()] == asked);
    }
}

/// The state of an order holds exactly the ids of the steps that succeeded: it
/// holds a charge id if and only if a charge under that id was reported, and the
/// same of a reservation id.
pub proof fn an_id_on_record_is_that_of_a_step<E>(
    request: OrderRequestView,
    history: Seq<Input<E>>,
    id: Seq<char>,
)
    requires
        is_history(crate::workflow::new_order::<E>(request), history),
    ensures
        replay(crate::workflow::new_order::<E>(request), history).charge_id == Some(id)
            <==> occurred(history, EventView::PaymentCharged(Ok(id))),
        replay(crate::workflow::new_order::<E>(request), history).reservation_id == Some(id)
            <==> occurred(history, EventView::InventoryReserved(Ok(id))),
    decreases history.len(),
{
    if history.len() > 0 {
        let before = history.drop_last();
        an_id_on_record_is_that_of_a_step(request, before, id);
        every_state_is_sound(request, before);
        lemma_ids_are_kept(
            replay(crate::workflow::new_order::<E>(request), before),
            history.last(),
        );
        lemma_one_more(history, Input::Event(EventView::PaymentCharged(Ok(id))));
        lemma_one_more(history, Input::Event(EventView::InventoryReserved(Ok(id))));
    }
}

/// Once recorded, an id stays as it is.
proof fn lemma_ids_are_kept<E>(order: OrderView<E>, input: Input<E>)
    requires
        order.wf(),
        order.accepts(input),
    ensures
        order.charge_id is Some ==> order.after(input).charge_id == order.charge_id,
        order.reservation_id is Some ==> order.after(input).reservation_id == order.reservation_id,
{
}

/// What comes of undoing a step makes no difference to what follows: a refund
/// or a release that failed does not keep the rest from being undone.
pub proof fn failed_compensation_changes_nothing<E>(order: OrderView<E>, error: E)
    ensures
        order.stage is Refunding ==> order.next(EventView::PaymentRefunded(Err(error)))
            == order.next(EventView::PaymentRefunded(Ok(()))),
        order.stage is Releasing ==> order.next(EventView::InventoryReleased(Err(error)))
            == order.next(EventView::InventoryReleased(Ok(()))),
{
}

/// A request to cancel matters at one point only, when the payment has been
/// charged. At any other it alters neither what is done next nor anything of
/// the state but that it is remembered.
pub proof fn cancelling_matters_only_once_charged<E>(order: OrderView<E>, event: EventView<E>)
    requires
        order.expects(event),
        !(event matches EventView::PaymentCharged(Ok(_))),
    ensures
        order.cancelled().expects(event),
        order.cancelled().next(event) == (order.next(event).0.cancelled(), order.next(event).1),
{
}

/// An order that somebody asked to cancel before it was charged never ships,
/// whatever happens next.
pub proof fn an_order_cancelled_in_time_never_ships<E>(
    request: OrderRequestView,
    before: Seq<Input<E>>,
    after: Seq<Input<E>>,
)
    requires
        is_history(crate::workflow::new_order::<E>(request), before + after),
        before.contains(Input::Cancel),
        replay(crate::workflow::new_order::<E>(request), before).charge_id is None,
    ensures
        forall|asked: ActionView<E>|
            actions(crate::workflow::new_order::<E>(request), before + after).contains(asked)
                ==> !(asked is ShipOrder),
{
    let order = crate::workflow::new_order::<E>(request);
    replay_goes_on_where_it_stopped(order, before, after);
    lemma_cancel_is_remembered(order, before);
    lemma_uncharged_never_shipped(request, before);
    every_state_is_sound(request, before);
    lemma_cancelled_never_ships(replay(order, before), after);
    let all = actions(order, before + after);
    let early = actions(order, before);
    let late = actions(replay(order, before), after);
    assert forall|asked: ActionView<E>| all.contains(asked) implies !(asked is ShipOrder) by {
        let i = choose|i: int| 0 <= i < all.len() && all[i] == asked;
        if i < early.len() {
            assert(early.contains(early[i]));
        } else {
            assert(late.contains(late[i - early.len()]));
        }
    }
}

/// A request to cancel is never forgotten.
proof fn lemma_cancel_is_remembered<E>(order: OrderView<E>, history: Seq<Input<E>>)
    requires
        is_history(order, history),
        order.cancel_requested || history.contains(Input::Cancel),
    ensures
        replay(order, history).cancel_requested,
    decreases history.len(),
{
    if history.len() > 0 && !(history.last() is Cancel) {
        if !order.cancel_requested {
            let i = choose|i: int| 0 <= i < history.len() && history[i] == Input::<E>::Cancel;
            assert(history.drop_last()[i] == Input::<E>::Cancel);
        }
        lemma_cancel_is_remembered(order, history.drop_last());
    }
}

/// Nothing ships before the payment is charged.
proof fn lemma_uncharged_never_shipped<E>(request: OrderRequestView, history: Seq<Input<E>>)
    requires
        is_history(crate::workflow::new_order::<E>(request), history),
        replay(crate::workflow::new_order::<E>(request), history).charge_id is None,
    ensures
        forall|asked: ActionView<E>|
            actions(crate::workflow::new_order::<E>(request), history).contains(asked) ==> !(
            asked is ShipOrder),
    decreases history.len(),
{
    let order = crate::workflow::new_order::<E>(request);
    if history.len() > 0 {
        let before = history.drop_last();
        every_state_is_sound(request, before);
        lemma_ids_are_kept(replay(order, before), history.last());
        lemma_uncharged_never_shipped(request, before);
        lemma_no_shipment_added(
            actions(order, before),
            replay(order, before).answers(history.last()),
        );
    }
}

/// From a state in which an uncharged order is cancelled, nothing ships.
proof fn lemma_cancelled_never_ships<E>(order: OrderView<E>, history: Seq<Input<E>>)
    requires
        order.wf(),
        order.cancel_requested,
        order.charge_id is None,
        is_history(order, history),
    ensures
        forall|asked: ActionView<E>|
            actions(order, history).contains(asked) ==> !(asked is ShipOrder),
        replay(order, history).wf(),
        replay(order, history).cancel_requested,
        !(replay(order, history).stage is Shipping),
    decreases history.len(),
{
    if history.len() > 0 {
        let before = history.drop_last();
        lemma_cancelled_never_ships(order, before);
        lemma_no_shipment_added(
            actions(order, before),
            replay(order, before).answers(history.last()),
        );
    }
}

/// Two lists of actions without a shipment have none together.
proof fn lemma_no_shipment_added<E>(first: Seq<ActionView<E>>, rest: Seq<ActionView<E>>)
    requires
        forall|asked: ActionView<E>| first.contains(asked) ==> !(asked is ShipOrder),
        forall|i: int| 0 <= i < rest.len() ==> !(#[trigger] rest[i] is ShipOrder),
    ensures
        forall|asked: ActionView<E>| (first + rest).contains(asked) ==> !(asked is ShipOrder),
{
    assert forall|asked: ActionView<E>| (first + rest).contains(asked) implies !(
    asked is ShipOrder) by {
        let i = choose|i: int| 0 <= i < (first + rest).len() && (first + rest)[i] == asked;
        if i < first.len() {
            assert(first.contains(first[i]));
        } else {
            assert(rest[i - first.len()] == asked);
        }
    }
}

/// Keys belong to one workflow and one step: two workflows share no key, and no
/// reservation has the key of a charge.
pub proof fn keys_are_never_shared(one: Seq<char>, other: Seq<char>)
    ensures
        crate::workflow::reservation_key_for(one) == crate::workflow::reservation_key_for(other)
            <==> one == other,
        crate::workflow::payment_key_for(one) == crate::workflow::payment_key_for(other) <==> one
            == other,
        crate::workflow::reservation_key_for(one) != crate::workflow::payment_key_for(other),
{
    let reserve = ":reserve"@;
    let charge = ":charge"@;
    reveal_strlit(":reserve");
    reveal_strlit(":charge");
    lemma_same_suffix(one, other, reserve);
    lemma_same_suffix(one, other, charge);
    let reservation_key = crate::workflow::reservation_key_for(one);
    let payment_key = crate::workflow::payment_key_for(other);
    if reservation_key == payment_key {
        assert(reservation_key[reservation_key.len() - 2] == reserve[6]);
        assert(payment_key[payment_key.len() - 2] == charge[5]);
    }
}

/// Two texts that end alike are equal where the rest is.
proof fn lemma_same_suffix(one: Seq<char>, other: Seq<char>, suffix: Seq<char>)
    ensures
        one + suffix == other + suffix <==> one == other,
{
    if one + suffix == other + suffix {
        assert((one + suffix).len() == one.len() + suffix.len());
        assert((other + suffix).len() == other.len() + suffix.len());
        assert forall|i: int| 0 <= i < one.len() implies one[i] == other[i] by {
            assert((one + suffix)[i] == (other + suffix)[i]);
        }
        assert(one =~= other);
    }
}

/// Each order has a workflow of its own: starting an order twice gives the same
/// workflow id, and no other order gives that one.
pub proof fn each_order_has_its_own_workflow(one: Seq<char>, other: Seq<char>)
    ensures
        crate::workflow::workflow_id_for(one) == crate::workflow::workflow_id_for(other) <==> one
            == other,
{
    let prefix = "order-"@;
    if prefix + one == prefix + other {
        assert(one =~= (prefix + one).skip(prefix.len() as int));
        assert(other =~= (prefix + other).skip(prefix.len() as int));
    }
}

/// Keys and ids hold all of what they derive from: a key is the whole workflow
/// id with the name of the step behind it, and a workflow id is the whole order
/// id with "order-" in front of it.
pub proof fn keys_and_ids_hold_all_they_derive_from(order_id: Seq<char>, workflow_id: Seq<char>)
    ensures
        crate::text_laws::frames(
            crate::workflow::workflow_id_for(order_id),
            "order-"@,
            order_id,
            Seq::empty(),
        ),
        crate::text_laws::frames(
            crate::workflow::reservation_key_for(workflow_id),
            Seq::empty(),
            workflow_id,
            ":reserve"@,
        ),
        crate::text_laws::frames(
            crate::workflow::payment_key_for(workflow_id),
            Seq::empty(),
            workflow_id,
            ":charge"@,
        ),
{
}

// ---------------------------------------------------------------------------
// Progress
// ---------------------------------------------------------------------------

/// Whether the stage of an order is the one in which it waits for what comes of
/// the last action it asked for.
spec fn waits_for_the_last<E>(stage: StageView<E>, asked: Seq<ActionView<E>>) -> bool {
    match stage {
        StageView::Created => asked.len() == 0,
        StageView::Reserving { .. } => asked.len() > 0 && asked.last() is ReserveInventory,
        StageView::Charging => asked.len() > 0 && asked.last() is ChargePayment,
        StageView::Shipping => asked.len() > 0 && asked.last() is ShipOrder,
        StageView::Refunding(_) => asked.len() > 0 && asked.last() is RefundPayment,
        StageView::Releasing(_) => asked.len() > 0 && asked.last() is ReleaseInventory,
        StageView::Finished => asked.len() > 0 && asked.last() is Finish,
    }
}

/// An order waits for what comes of the last action it asked for.
proof fn lemma_waits_for_the_last<E>(request: OrderRequestView, history: Seq<Input<E>>)
    requires
        is_history(crate::workflow::new_order::<E>(request), history),
    ensures
        waits_for_the_last(
            replay(crate::workflow::new_order::<E>(request), history).stage,
            actions(crate::workflow::new_order::<E>(request), history),
        ),
    decreases history.len(),
{
    let order = crate::workflow::new_order::<E>(request);
    if history.len() > 0 {
        let before = history.drop_last();
        lemma_waits_for_the_last(request, before);
        match history.last() {
            Input::Cancel => {
                assert(actions(order, history) =~= actions(order, before));
            },
            Input::Event(event) => {
                assert(actions(order, history).last() == replay(order, before).next(event).1);
            },
        }
    }
}

/// Whatever comes of the action that an order asked for last, it takes it in:
/// a success and a failure alike, whether or not somebody asked to cancel. An
/// order that has asked for nothing waits to be started, one that has asked to
/// be ended takes in nothing more, and no order takes in anything else. A request
/// to cancel can always come.
pub proof fn every_outcome_of_the_last_action_is_taken_in<E>(
    request: OrderRequestView,
    history: Seq<Input<E>>,
    event: EventView<E>,
)
    requires
        is_history(crate::workflow::new_order::<E>(request), history),
    ensures
        ({
            let order = crate::workflow::new_order::<E>(request);
            let asked = actions(order, history);
            let fits = if asked.len() == 0 {
                event is Started
            } else {
                match asked.last() {
                    ActionView::ReserveInventory(_, _) => event is InventoryReserved,
                    ActionView::ChargePayment(_, _) => event is PaymentCharged,
                    ActionView::ShipOrder(_, _) => event is OrderShipped,
                    ActionView::RefundPayment(_, _) => event is PaymentRefunded,
                    ActionView::ReleaseInventory(_, _) => event is InventoryReleased,
                    ActionView::Finish(_) => false,
                }
            };
            &&& replay(order, history).expects(event) <==> fits
            &&& is_history(order, history.push(Input::Event(event))) <==> fits
            &&& is_history(order, history.push(Input::Cancel))
        }),
{
    lemma_waits_for_the_last(request, history);
    assert(history.push(Input::Event(event)).drop_last() =~= history);
    assert(history.push(Input::<E>::Cancel).drop_last() =~= history);
}

/// What an order asks for when something is reported to it follows from what
/// happened before. A start asks for the stock of the order, a reservation for
/// its charge, and a charge for its shipment, or for the refund of that very
/// charge if somebody asked to cancel by then. A failure asks for the charge to
/// be refunded, if there was one, and then for the stock to be released. In the
/// end there is the summary of the shipment, the error that came up, or word
/// that the order was cancelled.
pub proof fn every_outcome_is_followed_by_its_step<E>(
    request: OrderRequestView,
    workflow_id: Seq<char>,
    history: Seq<Input<E>>,
    event: EventView<E>,
)
    requires
        is_history(
            crate::workflow::new_order::<E>(request),
            history.push(Input::Event(event)),
        ),
        started_as(history.push(Input::Event(event)), workflow_id),
    ensures
        ({
            let order = crate::workflow::new_order::<E>(request);
            let asked = actions(order, history.push(Input::Event(event)));
            &&& asked.len() == actions(order, history).len() + 1
            &&& asked.drop_last() == actions(order, history)
            &&& follows(request, workflow_id, history, event, asked.last())
        }),
{
    let order = crate::workflow::new_order::<E>(request);
    let longer = history.push(Input::Event(event));
    assert(longer.drop_last() =~= history);
    assert forall|id: Seq<char>| occurred(history, EventView::<E>::Started(id)) implies id
        == workflow_id by {
        lemma_one_more(longer, Input::Event(EventView::<E>::Started(id)));
        assert(occurred(longer, EventView::<E>::Started(id)));
    }
    lemma_one_more(longer, Input::Event(event));
    assert(occurred(longer, event));
    lemma_on_course(request, workflow_id, history);
    every_state_is_sound(request, history);
    lemma_cancel_in_time_has_one_charge(request, history);
    keys_and_ids_hold_all_they_derive_from(request.order_id, workflow_id);
    assert(actions(order, longer) == actions(order, history) + seq![
        replay(order, history).next(event).1,
    ]);
    assert(actions(order, longer).drop_last() =~= actions(order, history));
}

/// Whether `asked` is what follows `event`, given what happened before.
pub open spec fn follows<E>(
    request: OrderRequestView,
    workflow_id: Seq<char>,
    history: Seq<Input<E>>,
    event: EventView<E>,
    asked: ActionView<E>,
) -> bool {
    match event {
        EventView::Started(_) => {
            &&& asked matches ActionView::ReserveInventory(input, options)
            &&& input.order_id == request.order_id
            &&& input.sku == request.sku
            &&& input.quantity == request.quantity
            &&& crate::text_laws::frames(
                input.idempotency_key,
                Seq::empty(),
                workflow_id,
                ":reserve"@,
            )
            &&& options == crate::options::inventory_options_view()
        },
        EventView::InventoryReserved(Ok(_)) => {
            &&& asked matches ActionView::ChargePayment(input, options)
            &&& input.order_id == request.order_id
            &&& input.amount_cents == request.amount_cents
            &&& crate::text_laws::frames(
                input.idempotency_key,
                Seq::empty(),
                workflow_id,
                ":charge"@,
            )
            &&& options == crate::options::payment_options_view()
        },
        EventView::InventoryReserved(Err(error)) => asked == ActionView::Finish(Err(error)),
        EventView::PaymentCharged(Ok(id)) => if history.contains(Input::Cancel) {
            asked == ActionView::<E>::RefundPayment(id, crate::options::compensation_options_view())
        } else {
            &&& asked matches ActionView::ShipOrder(input, options)
            &&& input.order_id == request.order_id
            &&& input.parcel_count == request.parcel_count
            &&& options == crate::options::shipping_options_view()
        },
        EventView::PaymentCharged(Err(_)) => releases(history, asked),
        EventView::OrderShipped(Ok(summary)) => asked == ActionView::<E>::Finish(Ok(summary)),
        EventView::OrderShipped(Err(_)) => {
            &&& asked matches ActionView::RefundPayment(id, options)
            &&& occurred(history, EventView::PaymentCharged(Ok(id)))
            &&& options == crate::options::compensation_options_view()
        },
        EventView::PaymentRefunded(_) => releases(history, asked),
        EventView::InventoryReleased(_) => {
            &&& asked matches ActionView::Finish(result)
            &&& match result {
                Ok(text) => {
                    &&& text == "cancelled by request; fully compensated"@
                    &&& exists|id: Seq<char>|
                        #[trigger] came_before(
                            history,
                            Input::Cancel,
                            Input::Event(EventView::PaymentCharged(Ok(id))),
                        )
                },
                Err(error) => {
                    &&& occurred(history, EventView::PaymentCharged(Err(error))) || occurred(
                        history,
                        EventView::OrderShipped(Err(error)),
                    )
                    &&& forall|id: Seq<char>|
                        !#[trigger] came_before(
                            history,
                            Input::Cancel,
                            Input::Event(EventView::PaymentCharged(Ok(id))),
                        )
                },
            }
        },
    }
}

/// Whether `asked` is the release of stock that was reserved.
pub open spec fn releases<E>(history: Seq<Input<E>>, asked: ActionView<E>) -> bool {
    &&& asked matches ActionView::ReleaseInventory(id, options)
    &&& occurred(history, EventView::InventoryReserved(Ok(id)))
    &&& options == crate::options::compensation_options_view()
}

/// A charge that came after something else is the one on record.
proof fn lemma_cancel_in_time_has_one_charge<E>(
    request: OrderRequestView,
    history: Seq<Input<E>>,
)
    requires
        is_history(crate::workflow::new_order::<E>(request), history),
    ensures
        forall|id: Seq<char>|
            #[trigger] came_before(
                history,
                Input::Cancel,
                Input::Event(EventView::PaymentCharged(Ok(id))),
            ) ==> replay(crate::workflow::new_order::<E>(request), history).charge_id == Some(id),
{
    assert forall|id: Seq<char>|
        #[trigger] came_before(
            history,
            Input::Cancel,
            Input::Event(EventView::PaymentCharged(Ok(id))),
        ) implies replay(crate::workflow::new_order::<E>(request), history).charge_id == Some(
        id,
    ) by {
        let charge = Input::Event(EventView::<E>::PaymentCharged(Ok(id)));
        let (i, j) = choose|i: int, j: int|
            0 <= i < j < history.len() && #[trigger] history[i] == Input::<E>::Cancel
                && #[trigger] history[j] == charge;
        assert(history.contains(charge));
        an_id_on_record_is_that_of_a_step(request, history, id);
    }
}

/// An order that somebody asked to cancel while it was being charged, or before,
/// goes on to its end: it takes in the charge and asks for the refund of that
/// charge, takes in whatever comes of that and asks for the release of the stock,
/// and takes in whatever comes of that and ends with word that it was cancelled.
pub proof fn an_order_cancelled_in_time_is_undone_to_the_end<E>(
    request: OrderRequestView,
    history: Seq<Input<E>>,
    charge_id: Seq<char>,
    refunded: Result<(), E>,
    released: Result<(), E>,
)
    requires
        is_history(crate::workflow::new_order::<E>(request), history),
        actions(crate::workflow::new_order::<E>(request), history).len() > 0,
        actions(crate::workflow::new_order::<E>(request), history).last() is ChargePayment,
        history.contains(Input::Cancel),
    ensures
        ({
            let order = crate::workflow::new_order::<E>(request);
            let charged = history.push(Input::Event(EventView::PaymentCharged(Ok(charge_id))));
            let given_back = charged.push(Input::Event(EventView::PaymentRefunded(refunded)));
            let ended = given_back.push(Input::Event(EventView::InventoryReleased(released)));
            &&& is_history(order, ended)
            &&& actions(order, charged).last() matches ActionView::RefundPayment(id, _) && id
                == charge_id
            &&& actions(order, given_back).last() matches ActionView::ReleaseInventory(id, _)
                && occurred(history, EventView::InventoryReserved(Ok(id)))
            &&& actions(order, ended).last() == ActionView::<E>::Finish(
                Ok("cancelled by request; fully compensated"@),
            )
            &&& replay(order, ended).status == OrderStatus::Failed
        }),
{
    let order = crate::workflow::new_order::<E>(request);
    let charged = history.push(Input::Event(EventView::PaymentCharged(Ok(charge_id))));
    let given_back = charged.push(Input::Event(EventView::PaymentRefunded(refunded)));
    let ended = given_back.push(Input::Event(EventView::InventoryReleased(released)));
    lemma_waits_for_the_last(request, history);
    lemma_cancel_is_remembered(order, history);
    every_state_is_sound(request, history);
    assert(charged.drop_last() =~= history);
    assert(given_back.drop_last() =~= charged);
    assert(ended.drop_last() =~= given_back);
    let reservation_id = replay(order, history).reservation_id->0;
    an_id_on_record_is_that_of_a_step(request, history, reservation_id);
    reveal_with_fuel(is_history, 4);
    reveal_with_fuel(replay, 4);
}

/// What an observer sees follows from what the order asked for last: it is
/// reserving, charging, shipping or compensating while it waits for that. Once
/// it has ended, it is completed if it asked for nothing after the shipment,
/// failed if it was undone, and still reserving if there was never any stock.
pub proof fn the_status_tells_what_was_asked_for<E>(
    request: OrderRequestView,
    history: Seq<Input<E>>,
)
    requires
        is_history(crate::workflow::new_order::<E>(request), history),
    ensures
        ({
            let order = crate::workflow::new_order::<E>(request);
            let asked = actions(order, history);
            let status = replay(order, history).status;
            &&& asked.len() == 0 ==> status == OrderStatus::Reserving
            &&& asked.len() > 0 ==> match asked.last() {
                ActionView::ReserveInventory(_, _) => status == OrderStatus::Reserving,
                ActionView::ChargePayment(_, _) => status == OrderStatus::Charging,
                ActionView::ShipOrder(_, _) => status == OrderStatus::Shipping,
                ActionView::RefundPayment(_, _) => status == OrderStatus::Compensating,
                ActionView::ReleaseInventory(_, _) => status == OrderStatus::Compensating,
                ActionView::Finish(_) => asked.len() > 1 && match asked[asked.len() - 2] {
                    ActionView::ReserveInventory(_, _) => status == OrderStatus::Reserving,
                    ActionView::ShipOrder(_, _) => status == OrderStatus::Completed,
                    ActionView::ReleaseInventory(_, _) => status == OrderStatus::Failed,
                    _ => false,
                },
            }
        }),
    decreases history.len(),
{
    let order = crate::workflow::new_order::<E>(request);
    if history.len() > 0 {
        let before = history.drop_last();
        the_status_tells_what_was_asked_for(request, before);
        every_state_is_sound(request, before);
        lemma_waits_for_the_last(request, before);
        match history.last() {
            Input::Cancel => {
                assert(actions(order, history) =~= actions(order, before));
            },
            Input::Event(event) => {
                let asked = actions(order, history);
                assert(asked.last() == replay(order, before).next(event).1);
                if actions(order, before).len() > 0 {
                    assert(asked[asked.len() - 2] == actions(order, before).last());
                }
            },
        }
    }
}

} // verus!
