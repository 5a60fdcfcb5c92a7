//! A verified workflow interpreter: declaratively defined automation
//! flows run an ordered list of steps against a per-run variable store,
//! with per-step retry budgets and failure-fallback sub-flows.
//!
//! The interpreter is an event-driven step machine: every external
//! operation (an HTTP request, a file read or append, a sleep, a
//! notification delivery) is handed to the embedding program as an
//! [`machine::Action`], and its outcome comes back as an
//! [`machine::Event`]. Everything the machine decides in between —
//! step order, branching, retry budgets, failure recovery, the
//! variable store — is verified against [`machine::next_spec`].

pub mod errors;
pub mod laws;
pub mod machine;
pub mod model;
pub mod notifiers;
pub mod numbers;
pub mod schedule;
pub mod state;
pub mod textextract;
pub mod workflow;
