//! Core of a system-wide input-event listener.
//!
//! A low-latency interception callback, driven by the host environment's hook
//! chain, hands raw notifications across a channel to a slower enrichment
//! worker, which decodes them, resolves key names, timestamps them and
//! delivers the finished events to a user callback. This crate holds the
//! decision and enrichment logic of that pipeline, verified; the platform
//! glue (hook registration, the message loop, the worker thread) lives with
//! the embedding application.

pub mod enrich;
pub mod error;
pub mod event;
pub mod intercept;
pub mod startup;

pub use enrich::{enrich_all, process_notification, resolution_applies, WorkItem};
pub use error::{HookError, ListenError};
pub use event::{Button, Event, EventType, Key, RawNotification, Timestamp};
pub use intercept::{intercept_step, InterceptOutcome, HC_ACTION};
pub use startup::{advance, next_action, StartupAction, StartupPhase};
