//! An order pipeline on durable workflows.
//!
//! A workflow orchestrates, and activities act. [`workflow`] is the machine
//! that takes an order through reserving, charging and shipping, and undoes
//! what it did when a later step fails. [`activities`] are those steps, each
//! safe to attempt more than once, over the stand-in services of [`deps`].
//! [`options`] says how long an attempt may take and when another one follows.
//! [`hello_world`] is the same shape at its smallest.
//!
//! [`order_laws`], [`activity_laws`] and [`pipeline_laws`] state what holds over
//! whole histories. [`deps_laws`], [`text_laws`] and [`view_laws`] state what
//! holds of the services, the texts and the models that those rest on.

pub mod activities;
pub mod activity_laws;
pub mod deps;
pub mod deps_laws;
pub mod hello_world;
pub mod options;
pub mod order_laws;
pub mod pipeline_laws;
pub mod table;
pub mod text;
pub mod text_laws;
pub mod view_laws;
pub mod workflow;
