//! What crosses threads: the dependencies of the activities, which run on a
//! multi-threaded runtime, and everything that goes over the wire.

use std::sync::Arc;

use order_pipeline::activities::OrderActivities;
use order_pipeline::deps::{Database, Deps, PaymentGateway};
use order_pipeline::options::RetryPolicy;
use order_pipeline::workflow::{OrderRequest, OrderStatus};

fn assert_send<T: Send>() {}
fn assert_sync<T: Sync>() {}
fn assert_send_sync<T: Send + Sync>() {}

#[test]
fn activity_side_is_thread_safe() {
    assert_send_sync::<Deps>();
    assert_send_sync::<Arc<Deps>>();
    assert_send_sync::<Database>();
    assert_send_sync::<PaymentGateway>();
    assert_send_sync::<OrderActivities>();
}

#[test]
fn payload_types_are_thread_safe() {
    assert_send_sync::<OrderRequest>();
    assert_send_sync::<OrderStatus>();
    assert_send::<RetryPolicy>();
    assert_sync::<RetryPolicy>();
}
