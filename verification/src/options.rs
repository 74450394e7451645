//! How the workflow has its activities run: timeouts, and when trying again is
//! the right move.

use vstd::prelude::*;
use vstd::string::*;

use crate::activities::{error_types, ActivityFailureView};

verus! {

/// When a failed attempt is followed by another one.
///
/// What is `None` here is left to the runtime's default.
#[derive(Debug, Clone)]
pub struct RetryPolicy {
    /// The pause before the second attempt.
    pub initial_interval_secs: Option<u64>,
    /// Each later pause in percent of the one before: 200 doubles it.
    pub backoff_percent: Option<u32>,
    /// No pause is longer than this.
    pub maximum_interval_secs: Option<u64>,
    /// How many attempts are made at most; 0 means any number.
    pub maximum_attempts: u32,
    /// The failures that end the attempts at once, by error type.
    pub non_retryable_error_types: Vec<String>,
}

/// A retry policy with its texts as characters.
#[verifier::ext_equal]
pub struct RetryPolicyView {
    pub initial_interval_secs: Option<u64>,
    pub backoff_percent: Option<u32>,
    pub maximum_interval_secs: Option<u64>,
    pub maximum_attempts: u32,
    pub non_retryable_error_types: Seq<Seq<char>>,
}

impl View for RetryPolicy {
    type V = RetryPolicyView;

    open spec fn view(&self) -> RetryPolicyView {
        RetryPolicyView {
            initial_interval_secs: self.initial_interval_secs,
            backoff_percent: self.backoff_percent,
            maximum_interval_secs: self.maximum_interval_secs,
            maximum_attempts: self.maximum_attempts,
            non_retryable_error_types: self.non_retryable_error_types@.map_values(
                |name: String| name@,
            ),
        }
    }
}

impl RetryPolicyView {
    /// Whether another attempt follows `failure`, the outcome of attempt number
    /// `attempts`. The failure and the policy can each rule it out.
    pub open spec fn retries(self, failure: ActivityFailureView, attempts: nat) -> bool {
        &&& !failure.non_retryable
        &&& failure.error_type matches Some(name) ==> !self.non_retryable_error_types.contains(name)
        &&& self.maximum_attempts == 0 || attempts < self.maximum_attempts
    }
}

/// How one activity is run.
#[derive(Debug, Clone)]
pub struct ActivityOptions {
    /// The time that one attempt may take.
    pub start_to_close_secs: u64,
    /// The longest silence between two heartbeats, where they are expected.
    pub heartbeat_secs: Option<u64>,
    /// `None` leaves retries to the runtime's default.
    pub retry_policy: Option<RetryPolicy>,
}

/// Activity options with their texts as characters.
#[verifier::ext_equal]
pub struct ActivityOptionsView {
    pub start_to_close_secs: u64,
    pub heartbeat_secs: Option<u64>,
    pub retry_policy: Option<RetryPolicyView>,
}

impl View for ActivityOptions {
    type V = ActivityOptionsView;

    open spec fn view(&self) -> ActivityOptionsView {
        ActivityOptionsView {
            start_to_close_secs: self.start_to_close_secs,
            heartbeat_secs: self.heartbeat_secs,
            retry_policy: match self.retry_policy {
                Some(policy) => Some(policy@),
                None => None,
            },
        }
    }
}

/// Retrying payments: from one second on, doubling up to half a minute, five
/// attempts at most, and never after a declined card.
pub open spec fn payment_policy() -> RetryPolicyView {
    RetryPolicyView {
        initial_interval_secs: Some(1),
        backoff_percent: Some(200),
        maximum_interval_secs: Some(30),
        maximum_attempts: 5,
        non_retryable_error_types: seq![error_types::CARD_DECLINED@],
    }
}

/// Retrying reservations: three attempts at most, and never when out of stock.
pub open spec fn inventory_policy() -> RetryPolicyView {
    RetryPolicyView {
        initial_interval_secs: None,
        backoff_percent: None,
        maximum_interval_secs: None,
        maximum_attempts: 3,
        non_retryable_error_types: seq![error_types::OUT_OF_STOCK@],
    }
}

/// Retrying compensations: any number of attempts, half a minute apart at most,
/// after any failure that is not final in itself.
pub open spec fn compensation_policy() -> RetryPolicyView {
    RetryPolicyView {
        initial_interval_secs: None,
        backoff_percent: None,
        maximum_interval_secs: Some(30),
        maximum_attempts: 0,
        non_retryable_error_types: seq![],
    }
}

/// The options for charging a payment.
pub open spec fn payment_options_view() -> ActivityOptionsView {
    ActivityOptionsView {
        start_to_close_secs: 30,
        heartbeat_secs: None,
        retry_policy: Some(payment_policy()),
    }
}

/// The options for reserving stock.
pub open spec fn inventory_options_view() -> ActivityOptionsView {
    ActivityOptionsView {
        start_to_close_secs: 10,
        heartbeat_secs: None,
        retry_policy: Some(inventory_policy()),
    }
}

/// The options for shipping.
pub open spec fn shipping_options_view() -> ActivityOptionsView {
    ActivityOptionsView {
        start_to_close_secs: 300,
        heartbeat_secs: Some(5),
        retry_policy: None,
    }
}

/// The options for undoing a step.
pub open spec fn compensation_options_view() -> ActivityOptionsView {
    ActivityOptionsView {
        start_to_close_secs: 30,
        heartbeat_secs: None,
        retry_policy: Some(compensation_policy()),
    }
}

/// A payment is given up eventually: one that has failed five times is a matter
/// for the business. A declined card ends it at once.
pub fn payment_options() -> (options: ActivityOptions)
    ensures
        options@ == payment_options_view(),
{
    let names: Vec<String> = vec![error_types::CARD_DECLINED.to_string()];
    assert(names@.map_values(|name: String| name@) =~= seq![error_types::CARD_DECLINED@]);
    ActivityOptions {
        start_to_close_secs: 30,
        heartbeat_secs: None,
        retry_policy: Some(
            RetryPolicy {
                initial_interval_secs: Some(1),
                backoff_percent: Some(200),
                maximum_interval_secs: Some(30),
                maximum_attempts: 5,
                non_retryable_error_types: names,
            },
        ),
    }
}

/// A reservation gets three attempts, unless there is no stock.
pub fn inventory_options() -> (options: ActivityOptions)
    ensures
        options@ == inventory_options_view(),
{
    let names: Vec<String> = vec![error_types::OUT_OF_STOCK.to_string()];
    assert(names@.map_values(|name: String| name@) =~= seq![error_types::OUT_OF_STOCK@]);
    ActivityOptions {
        start_to_close_secs: 10,
        heartbeat_secs: None,
        retry_policy: Some(
            RetryPolicy {
                initial_interval_secs: None,
                backoff_percent: None,
                maximum_interval_secs: None,
                maximum_attempts: 3,
                non_retryable_error_types: names,
            },
        ),
    }
}

/// Shipping takes long, so it reports progress: a worker that died is noticed
/// after five seconds rather than after the whole time of an attempt.
pub fn shipping_options() -> (options: ActivityOptions)
    ensures
        options@ == shipping_options_view(),
{
    ActivityOptions { start_to_close_secs: 300, heartbeat_secs: Some(5), retry_policy: None }
}

/// Undoing a step should be near-unconditional. So it is retried indefinitely,
/// with a modest cap on the pauses, rather than given up with money left on the
/// floor.
pub fn compensation_options() -> (options: ActivityOptions)
    ensures
        options@ == compensation_options_view(),
{
    let names: Vec<String> = Vec::new();
    assert(names@.map_values(|name: String| name@) =~= Seq::<Seq<char>>::empty());
    ActivityOptions {
        start_to_close_secs: 30,
        heartbeat_secs: None,
        retry_policy: Some(
            RetryPolicy {
                initial_interval_secs: None,
                backoff_percent: None,
                maximum_interval_secs: Some(30),
                maximum_attempts: 0,
                non_retryable_error_types: names,
            },
        ),
    }
}

} // verus!
