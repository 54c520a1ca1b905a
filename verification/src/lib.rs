//! A minimal real-time notification core: one or more producers publish text
//! messages into a process-wide bus, and every currently connected subscriber
//! observes every message published while it is connected, in order, through
//! an independent cursor with an explicit lag policy.

pub mod broadcast;
pub mod event_send;
pub mod event_stream;
pub mod server;
pub mod stream;
pub mod tasks;
