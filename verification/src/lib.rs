//! A change-notification bridge over a shared folder of views.
//!
//! The bridge subscribes to streams of raw mutation events emitted by a
//! shared hierarchical store, filters them by the workspace they belong to,
//! aggregates them into per-parent refreshes, and turns them into
//! deduplicated notifications addressed by topic. The store itself, the
//! event transport and the delivery transport live outside; this crate holds
//! the decisions: which events to process, which notifications to build, and
//! when a subscription must end.

pub mod aggregator;
pub mod folder;
pub mod ids;
pub mod model;
pub mod notification;
pub mod task;
