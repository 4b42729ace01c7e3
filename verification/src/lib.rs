//! Chat-automation bot core: OAuth bootstrap and refresh for two external
//! services, a rate-limited command registry, chat-message routing, and
//! cooperative shutdown orchestration.
//!
//! The modules here hold the decision logic; the surrounding binary performs
//! the network and file I/O and feeds plain values in and out.

pub mod auth;
pub mod browser;
mod clock;
pub mod commands;
pub mod error;
pub mod request_endpoints;
pub mod shutdown;
pub mod spotify;
pub mod strutil;
pub mod twitch_bot;

use vstd::prelude::*;

verus! {

} // verus!
