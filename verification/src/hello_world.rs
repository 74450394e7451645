//! The smallest pipeline: one workflow that calls one activity.

use vstd::prelude::*;
use vstd::string::*;

use crate::activities::ActivityError;
use crate::options::{ActivityOptions, ActivityOptionsView};
use crate::text::join;

verus! {

/// The queue that the worker polls and that greetings are started on.
pub const TASK_QUEUE: &'static str = "hello-world";

/// The greeting for `name`.
pub open spec fn greeting(name: Seq<char>) -> Seq<char> {
    "Hello, "@ + name + "!"@
}

/// The activities of the greeting service.
pub struct GreetingActivities;

impl GreetingActivities {
    /// Greets somebody, which always succeeds.
    pub fn greet(name: String) -> (result: Result<String, ActivityError>)
        ensures
            result matches Ok(text) && text@ == greeting(name@),
    {
        let hello = join("Hello, ", name.as_str());
        Ok(join(hello.as_str(), "!"))
    }
}

/// What the runtime reports to the workflow. `E` is the error of an activity
/// whose attempts have all failed.
pub enum GreetingEvent<E> {
    /// The workflow starts, to greet this name.
    Started(String),
    /// The greeting activity ended, with the greeting if it succeeded.
    Greeted(Result<String, E>),
}

/// What the workflow asks of the runtime.
pub enum GreetingAction<E> {
    /// Greet this name.
    Greet(String, ActivityOptions),
    /// End the workflow with this result.
    Finish(Result<String, E>),
}

/// The options for the greeting: ten seconds for an attempt.
pub open spec fn greeting_options() -> ActivityOptionsView {
    ActivityOptionsView { start_to_close_secs: 10, heartbeat_secs: None, retry_policy: None }
}

/// The workflow that greets. It has no state.
#[derive(Default)]
pub struct HelloWorldWorkflow;

impl HelloWorldWorkflow {
    /// Takes in an event and returns what to do next: the name is handed to the
    /// activity, and what comes of it is the result.
    pub fn run<E>(event: GreetingEvent<E>) -> (action: GreetingAction<E>)
        ensures
            match event {
                GreetingEvent::Started(name) => action matches GreetingAction::Greet(input, options)
                    && input == name && options@ == greeting_options(),
                GreetingEvent::Greeted(outcome) => action == GreetingAction::Finish(outcome),
            },
    {
        match event {
            GreetingEvent::Started(name) => GreetingAction::Greet(
                name,
                ActivityOptions {
                    start_to_close_secs: 10,
                    heartbeat_secs: None,
                    retry_policy: None,
                },
            ),
            GreetingEvent::Greeted(outcome) => GreetingAction::Finish(outcome),
        }
    }
}

/// A greeting holds the whole name, character by character, between "Hello, "
/// and "!".
pub proof fn a_greeting_holds_the_whole_name(name: Seq<char>)
    ensures
        greeting(name).len() == name.len() + 8,
        greeting(name).take(7) == seq!['H', 'e', 'l', 'l', 'o', ',', ' '],
        greeting(name).last() == '!',
        forall|i: int| 0 <= i < name.len() ==> #[trigger] name[i] == greeting(name)[7 + i],
{
    reveal_strlit("Hello, ");
    reveal_strlit("!");
    assert(greeting(name).take(7) =~= seq!['H', 'e', 'l', 'l', 'o', ',', ' ']);
}

/// Different names get different greetings.
pub proof fn different_names_get_different_greetings(one: Seq<char>, other: Seq<char>)
    ensures
        greeting(one) == greeting(other) <==> one == other,
{
    a_greeting_holds_the_whole_name(one);
    a_greeting_holds_the_whole_name(other);
    if greeting(one) == greeting(other) {
        assert forall|i: int| 0 <= i < one.len() implies one[i] == other[i] by {
            assert(one[i] == greeting(one)[7 + i]);
            assert(other[i] == greeting(other)[7 + i]);
        }
        assert(one =~= other);
    }
}

/// One attempt at a greeting may take ten seconds. It sends no heartbeat, and
/// trying again is left to the runtime.
pub proof fn a_greeting_has_ten_seconds()
    ensures
        greeting_options().start_to_close_secs == 10,
        greeting_options().heartbeat_secs is None,
        greeting_options().retry_policy is None,
{
}

} // verus!
