# order_pipeline

An order pipeline on durable workflows, with its orchestration and its
activities verified in Verus.

- `src/workflow.rs`: the order workflow as a machine from events to actions:
  reserve stock, charge the payment, ship, and undo what was done when a later
  step fails or the order is cancelled.
- `src/activities.rs`: the activities, each safe to attempt more than once, and
  the failures that they report.
- `src/deps.rs`, `src/table.rs`, `src/text.rs`: the in-memory database and the
  payment gateway that the activities work against.
- `src/options.rs`: timeouts and retry policies.
- `src/hello_world.rs`: one workflow and one activity.
- `src/order_laws.rs`, `src/activity_laws.rs`, `src/pipeline_laws.rs`: what holds
  over whole histories: the ways in which an order can end, that it ends, that
  attempts under one key charge once, that what was reserved is released.
- `app/`: the workers and starters around the library, on the Temporal SDK.
  Building the SDK needs `protoc`.
- `tests/`: the library on concrete values.
