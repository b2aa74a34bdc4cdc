//! A bridge between an application and a chat-platform gateway that speaks
//! JSON over one WebSocket connection: a publish/subscribe bus, the routing
//! of inbound frames, typed event decoding, request/response correlation and
//! the plugin trigger rules, each as a verified state machine.
//!
//! Waiting (sockets, timers, wake-ups) is left to the caller: every operation
//! here runs to completion on the values it is handed.

pub mod decimal;
pub mod json;
pub mod bus;
pub mod message;
pub mod event;
pub mod action;
pub mod adapter;
pub mod plugin;
pub mod mood;
pub mod config;

use vstd::prelude::*;

verus! {

/// The sum of two counters.
pub fn add(left: u64, right: u64) -> (r: u64)
    requires
        left + right <= u64::MAX,
    ensures
        r == left + right,
{
    left + right
}

} // verus!
