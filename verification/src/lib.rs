//! Event-reaction core of a voice-chat group bot.
//!
//! The bot watches presence and voice-membership events from a real-time
//! gateway and enforces two policies: an idle-timeout disconnect (leave the
//! voice channel after six consecutive observations of being alone) and a
//! playback-started notification. This crate holds the decision logic of that
//! core — the gateway event router, the per-session idle watchdog, and the
//! playback notifier — as verified functions from plain values to requested
//! actions. The surrounding process fetches gateway state, hands it in, and
//! performs the actions the decisions call for.

pub mod handlers;
pub mod structs;
pub mod watchdog;
