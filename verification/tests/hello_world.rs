//! The greeting workflow.

use order_pipeline::hello_world::{
    GreetingAction, GreetingActivities, GreetingEvent, HelloWorldWorkflow, TASK_QUEUE,
};

#[test]
fn greets_by_name() {
    assert_eq!(TASK_QUEUE, "hello-world");
    assert_eq!(
        GreetingActivities::greet("Ada".to_string()).unwrap(),
        "Hello, Ada!"
    );
    assert_eq!(GreetingActivities::greet(String::new()).unwrap(), "Hello, !");
}

#[test]
fn the_workflow_hands_on_the_name_and_the_greeting() {
    match HelloWorldWorkflow::run::<String>(GreetingEvent::Started("Ada".to_string())) {
        GreetingAction::Greet(name, options) => {
            assert_eq!(name, "Ada");
            assert_eq!(options.start_to_close_secs, 10);
            assert!(options.retry_policy.is_none());
        }
        GreetingAction::Finish(_) => panic!("nothing to finish yet"),
    }
    for outcome in [Ok("Hello, Ada!".to_string()), Err("gone".to_string())] {
        match HelloWorldWorkflow::run::<String>(GreetingEvent::Greeted(outcome.clone())) {
            GreetingAction::Finish(result) => assert_eq!(result, outcome),
            GreetingAction::Greet(_, _) => panic!("already greeted"),
        }
    }
}
