//! A verified core for a small gateway chat bot: it answers the `/ping`
//! command with `Pong!`, and decides what to log and when to stop.
//!
//! Everything here is a function from plain values to plain values. The
//! program around it owns the environment, the network and the event loop;
//! it hands events in and carries the returned actions out.

pub mod credential;
pub mod failure;
pub mod handler;
pub mod intents;
