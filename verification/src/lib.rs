//! Core of a real-time chat relay: a registry of authenticated connections,
//! a read-through message cache with invalidation on write, a per-connection
//! command dispatcher, and a fan-out planner that routes events to every live
//! connection of each recipient. Storage and transport stay outside; their
//! answers are fed to the dispatcher as events.

pub mod model;
pub mod protocol;
pub mod auth;
pub mod cache;
pub mod dispatch;
pub mod fanout;
pub mod ids;
pub mod session;
