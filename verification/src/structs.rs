use vstd::prelude::*;

verus! {

/// Immutable description of one active voice session: the owning guild, the
/// voice channel the bot occupies, and the text channel used for status
/// announcements. All fields are fixed for the lifetime of the session; a new
/// session requires a fresh value.
#[derive(Clone, Copy, PartialEq, Eq, Structural, Debug)]
pub struct EventConfig {
    pub guild_id: u64,
    pub voice_channel_id: u64,
    pub text_channel_id: u64,
}

/// One participant's voice connection state at evaluation time: who they are
/// and which voice channel, if any, they currently occupy. A snapshot of a
/// guild's voice states is a vector of these, valid only for one evaluation.
#[derive(Clone, Copy, PartialEq, Eq, Debug)]
pub struct VoiceStateEntry {
    pub user_id: u64,
    pub channel_id: Option<u64>,
}

/// The parts of a gateway voice-state-change event that the router reads: the
/// participant whose state changed, the voice channel of the new state, and
/// the guild the event belongs to, when the gateway resolved one.
#[derive(Clone, Copy, PartialEq, Eq, Debug)]
pub struct VoiceStateEvent {
    pub user_id: u64,
    pub channel_id: Option<u64>,
    pub guild_id: Option<u64>,
}

/// A track-lifecycle event from the voice session. Only a started track
/// triggers a notification; every other variant is ignored by design.
#[derive(Clone, Copy, PartialEq, Eq, Structural, Debug)]
pub enum TrackEvent {
    Started,
    Other,
}

/// What the router asks the surrounding process to do after a
/// voice-state-change event.
#[derive(Clone, Copy, PartialEq, Eq, Debug)]
pub enum VoiceStateAction {
    /// The event does not concern the bot, or the bot still has a voice
    /// channel: nothing to do.
    Ignore,
    /// The bot lost its voice channel but the event carries no guild id:
    /// report the unresolvable context and stop.
    LogMissingGuild,
    /// The bot was removed from voice by an external actor: disconnect its
    /// session in this guild.
    Leave(u64),
}

/// What the idle watchdog asks the surrounding process to do after one tick.
#[derive(Clone, Copy, PartialEq, Eq, Debug)]
pub enum TickAction {
    /// The guild was missing from the gateway cache: report the unresolvable
    /// context; the counter is left untouched.
    GuildUnresolved,
    /// The session stays as it is.
    Stay,
    /// The idle threshold was crossed: disconnect from voice and post the
    /// farewell message, both best effort.
    Leave,
}

/// What the playback notifier asks for after a track-lifecycle event.
#[derive(Clone, Copy, PartialEq, Eq, Debug)]
pub enum NotifyAction {
    /// No notification owed.
    Ignore,
    /// Post the "now playing" notification to this guild's bound text
    /// channel.
    SendNowPlaying { guild_id: u64, text_channel_id: u64 },
}

/// The bot-wide presence requested on connection-ready: a streaming activity
/// with fixed display text and stream URL, and a do-not-disturb availability.
#[derive(Clone, Copy, PartialEq, Eq, Debug)]
pub struct Presence {
    pub activity_name: &'static str,
    pub activity_url: &'static str,
    pub do_not_disturb: bool,
}

} // verus!
