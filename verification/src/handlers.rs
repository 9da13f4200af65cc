//! The three reactive handlers of the core: the gateway event router, the
//! playback notifier, and the per-session idle watchdog. Each is a pure
//! decision from plain values to a requested action; the surrounding process
//! performs the gateway calls the action names.

use vstd::prelude::*;

use crate::structs::{
    EventConfig, NotifyAction, Presence, TickAction, TrackEvent, VoiceStateAction,
    VoiceStateEntry, VoiceStateEvent,
};
use crate::watchdog::{counter_after, step_counter, IDLE_LEAVE_THRESHOLD};

verus! {

/// A participant entry keeps the bot from being alone when it occupies the
/// watched voice channel and is not the bot itself. Participants in other
/// channels of the guild do not count, nor do entries with no channel.
pub open spec fn occupies_as_other(e: VoiceStateEntry, channel_id: u64, bot_id: u64) -> bool {
    e.channel_id == Some(channel_id) && e.user_id != bot_id
}

/// The bot is alone in the watched channel exactly when no entry of the
/// snapshot is another participant of that channel.
pub open spec fn spec_alone(states: Seq<VoiceStateEntry>, channel_id: u64, bot_id: u64) -> bool {
    forall|i: int| 0 <= i < states.len() ==> !occupies_as_other(states[i], channel_id, bot_id)
}

/// Decide aloneness from a fresh snapshot of the guild's voice states.
pub fn check_alone(states: &Vec<VoiceStateEntry>, channel_id: u64, bot_id: u64) -> (alone: bool)
    ensures
        alone == spec_alone(states@, channel_id, bot_id),
{
    let mut i: usize = 0;
    while i < states.len()
        invariant
            i <= states.len(),
            forall|j: int| 0 <= j < i ==> !occupies_as_other(states@[j], channel_id, bot_id),
        decreases states.len() - i,
    {
        let e = states[i];
        match e.channel_id {
            Some(c_id) => {
                if c_id == channel_id && e.user_id != bot_id {
                    assert(occupies_as_other(states@[i as int], channel_id, bot_id));
                    return false;
                }
            }
            None => {}
        }
        i += 1;
    }
    true
}

/// The farewell announcement posted to the bound text channel when the idle
/// watchdog disconnects the bot.
pub fn farewell_text() -> (s: &'static str)
    ensures
        s@ == "Left voice due to lack of frens :((("@,
{
    "Left voice due to lack of frens :((("
}

/// The gateway event router: the single entry point for inbound gateway
/// events, mapping each event to its reaction.
pub struct Handler;

impl Handler {
    /// On connection-ready: the fixed presence the process must advertise — a
    /// streaming activity with fixed display text and stream URL, and a
    /// do-not-disturb availability. Setting it is fire-and-forget.
    pub fn ready(&self) -> (p: Presence)
        ensures
            p.activity_name@ == "\u{1f4fb} Tropico News Today \u{1f9e8}"@,
            p.activity_url@ == "https://www.youtube.com/watch?v=BmKMrUMS9lg"@,
            p.do_not_disturb,
    {
        Presence {
            activity_name: "\u{1f4fb} Tropico News Today \u{1f9e8}",
            activity_url: "https://www.youtube.com/watch?v=BmKMrUMS9lg",
            do_not_disturb: true,
        }
    }

    /// On a voice-state-change: events about other participants are ignored,
    /// for every such id. When the bot itself lost its voice channel — a
    /// forced disconnect, not its own leave command — the session in the
    /// event's guild is to be disconnected; an event that resolves no guild
    /// is reported as an error instead. A state that still has a channel
    /// needs no reaction.
    pub fn voice_state_update(&self, bot_id: u64, event: &VoiceStateEvent) -> (action:
        VoiceStateAction)
        ensures
            event.user_id != bot_id ==> action == VoiceStateAction::Ignore,
            event.user_id == bot_id && event.channel_id is Some ==> action
                == VoiceStateAction::Ignore,
            event.user_id == bot_id && event.channel_id is None ==> action == (match event
                .guild_id {
                Some(g) => VoiceStateAction::Leave(g),
                None => VoiceStateAction::LogMissingGuild,
            }),
    {
        if event.user_id != bot_id {
            return VoiceStateAction::Ignore;
        }
        if event.channel_id.is_none() {
            match event.guild_id {
                Some(g) => VoiceStateAction::Leave(g),
                None => VoiceStateAction::LogMissingGuild,
            }
        } else {
            VoiceStateAction::Ignore
        }
    }
}

/// Posts a "now playing" notification when track playback begins.
pub struct TrackPlayNotifier {
    pub cfg: EventConfig,
}

impl TrackPlayNotifier {
    /// Exactly one notification per started track, none for any other
    /// track-lifecycle event. The send is best effort: the process logs a
    /// failed send and never feeds the failure back to the playback
    /// subsystem.
    pub fn act(&self, event: &TrackEvent) -> (action: NotifyAction)
        ensures
            *event == TrackEvent::Started ==> action == (NotifyAction::SendNowPlaying {
                guild_id: self.cfg.guild_id,
                text_channel_id: self.cfg.text_channel_id,
            }),
            *event != TrackEvent::Started ==> action == NotifyAction::Ignore,
    {
        match event {
            TrackEvent::Started => NotifyAction::SendNowPlaying {
                guild_id: self.cfg.guild_id,
                text_channel_id: self.cfg.text_channel_id,
            },
            TrackEvent::Other => NotifyAction::Ignore,
        }
    }
}

/// The idle watchdog of one voice session: counts consecutive ticks on which
/// the bot was alone in its bound voice channel and fires the leave action
/// once the count crosses the threshold.
pub struct TimeoutHandler {
    pub cfg: EventConfig,
    /// Consecutive alone observations so far.
    pub timer: usize,
    /// The alone flag of every decided tick so far, oldest first.
    pub history: Ghost<Seq<bool>>,
}

impl TimeoutHandler {
    /// The counter always equals the idle count determined by the history of
    /// alone observations.
    pub open spec fn wf(self) -> bool {
        self.timer == counter_after(self.history@)
    }

    /// A fresh watchdog for a newly joined voice session: counter at zero.
    pub fn new(cfg: EventConfig) -> (h: TimeoutHandler)
        ensures
            h.wf(),
            h.cfg == cfg,
            h.timer == 0,
            h.history@ == Seq::<bool>::empty(),
    {
        TimeoutHandler { cfg, timer: 0, history: Ghost(Seq::empty()) }
    }

    /// One watchdog tick, evaluated against a fresh snapshot of the guild's
    /// voice states (`None` when the guild was missing from the gateway
    /// cache). If the bot is alone the counter advances by one, and the tick
    /// fires the leave action exactly when the counter already stood at the
    /// threshold; otherwise the counter resets to zero.
    pub fn act(&mut self, guild_states: Option<&Vec<VoiceStateEntry>>, bot_id: u64) -> (action:
        TickAction)
        requires
            old(self).wf(),
            old(self).timer < usize::MAX,
        ensures
            final(self).wf(),
            final(self).cfg == old(self).cfg,
            guild_states is None ==> ({
                &&& action == TickAction::GuildUnresolved
                &&& final(self).timer == old(self).timer
                &&& final(self).history@ == old(self).history@
            }),
            guild_states matches Some(s) ==> ({
                let alone = spec_alone(s@, old(self).cfg.voice_channel_id, bot_id);
                &&& final(self).history@ == old(self).history@.push(alone)
                &&& final(self).timer == step_counter(old(self).timer as nat, alone)
                &&& action == (if alone && old(self).timer >= IDLE_LEAVE_THRESHOLD {
                    TickAction::Leave
                } else {
                    TickAction::Stay
                })
                &&& (action == TickAction::Leave <==> crate::watchdog::leave_fires_at(
                    final(self).history@,
                    old(self).history@.len() as int,
                ))
            }),
    {
        let states = match guild_states {
            Some(s) => s,
            None => {
                return TickAction::GuildUnresolved;
            },
        };
        let alone = check_alone(states, self.cfg.voice_channel_id, bot_id);
        proof {
            crate::watchdog::lemma_counter_after_push(self.history@, alone);
            assert(self.history@.push(alone).take(self.history@.len() as int) =~= self.history@);
        }
        if alone {
            let prev = self.timer;
            self.timer = self.timer + 1;
            self.history = Ghost(self.history@.push(true));
            if prev >= IDLE_LEAVE_THRESHOLD {
                TickAction::Leave
            } else {
                TickAction::Stay
            }
        } else {
            self.timer = 0;
            self.history = Ghost(self.history@.push(false));
            TickAction::Stay
        }
    }
}

} // verus!
