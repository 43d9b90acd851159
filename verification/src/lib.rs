//! A polling wait-for-condition engine with a verified progress-reporter
//! state machine.
//!
//! A caller-supplied condition classifies each event pulled from an event
//! source into a [`msg::Msg`] verdict; the engine drives a status-line
//! reporter from those verdicts and stops at the first success or failure.

pub mod engine;
pub mod msg;
pub mod reporter;
