//! Decision procedure of a reconciliation controller for `MyResource` objects.
//!
//! The library decides; a driver performs. One reconciliation pass is a small
//! state machine (`operator::Reconciliation`): each call of its `step` takes the
//! answer to the previous request and names the next thing the driver must do
//! (fetch the object, apply a patch, wait, or stop with a requeue directive).
//! The contracts tie every step to the spec-level transition `operator::next`,
//! and the proof functions of `pass` state what holds of a whole pass.

pub mod crd;
pub mod operator;
pub mod pass;
