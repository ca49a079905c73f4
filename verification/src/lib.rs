//! Recovery of messages stranded in a dead-letter queue (DLQ): decoding the
//! DLQ envelope, scanning a topic for one message, planning its republication
//! or archival, and the publish-then-commit protocol that moves it out of the
//! queue without losing it.

pub mod clock;
pub mod codec;
pub mod commands;
pub mod config;
pub mod diff;
pub mod json;
pub mod model;
pub mod plan;
pub mod preview;
pub mod report;
pub mod scan;
pub mod session;
pub mod text;
pub mod topics;
pub mod workflow;
