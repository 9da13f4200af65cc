use sunny::handlers::TimeoutHandler;
use sunny::structs::{EventConfig, TickAction, VoiceStateEntry};

const BOT_ID: u64 = 77;

fn cfg() -> EventConfig {
    EventConfig { guild_id: 10, voice_channel_id: 20, text_channel_id: 30 }
}

fn alone_snapshot() -> Vec<VoiceStateEntry> {
    // Only the bot itself occupies the watched channel.
    vec![VoiceStateEntry { user_id: BOT_ID, channel_id: Some(20) }]
}

fn accompanied_snapshot() -> Vec<VoiceStateEntry> {
    vec![
        VoiceStateEntry { user_id: BOT_ID, channel_id: Some(20) },
        VoiceStateEntry { user_id: 5, channel_id: Some(20) },
    ]
}

#[test]
fn six_alone_ticks_fire_leave_exactly_once_on_the_sixth() {
    let mut h = TimeoutHandler::new(cfg());
    let snap = alone_snapshot();
    for tick in 1..=5u64 {
        let action = h.act(Some(&snap), BOT_ID);
        assert_eq!(action, TickAction::Stay, "no leave before tick 6 (tick {})", tick);
        assert_eq!(h.timer as u64, tick);
    }
    let action = h.act(Some(&snap), BOT_ID);
    assert_eq!(action, TickAction::Leave);
    assert_eq!(h.timer, 6);
}

#[test]
fn four_alone_ticks_then_company_reset_counter_and_never_leave() {
    let mut h = TimeoutHandler::new(cfg());
    let alone = alone_snapshot();
    let mut timers: Vec<usize> = Vec::new();
    for _ in 0..4 {
        let action = h.act(Some(&alone), BOT_ID);
        assert_eq!(action, TickAction::Stay);
        timers.push(h.timer);
    }
    let action = h.act(Some(&accompanied_snapshot()), BOT_ID);
    assert_eq!(action, TickAction::Stay);
    timers.push(h.timer);
    assert_eq!(timers, vec![1, 2, 3, 4, 0]);
}

#[test]
fn five_alone_ticks_then_company_never_fires_leave() {
    let mut h = TimeoutHandler::new(cfg());
    let alone = alone_snapshot();
    for _ in 0..5 {
        assert_eq!(h.act(Some(&alone), BOT_ID), TickAction::Stay);
    }
    // A non-alone observation on the very tick that would otherwise fire.
    assert_eq!(h.act(Some(&accompanied_snapshot()), BOT_ID), TickAction::Stay);
    assert_eq!(h.timer, 0);
}

#[test]
fn counter_is_not_reset_after_the_leave_fires() {
    let mut h = TimeoutHandler::new(cfg());
    let alone = alone_snapshot();
    for _ in 0..6 {
        h.act(Some(&alone), BOT_ID);
    }
    assert_eq!(h.timer, 6);
    // A further alone observation still sees the counter at the threshold.
    assert_eq!(h.act(Some(&alone), BOT_ID), TickAction::Leave);
    assert_eq!(h.timer, 7);
}

#[test]
fn unresolved_guild_reports_and_leaves_counter_untouched() {
    let mut h = TimeoutHandler::new(cfg());
    let alone = alone_snapshot();
    h.act(Some(&alone), BOT_ID);
    h.act(Some(&alone), BOT_ID);
    assert_eq!(h.timer, 2);
    let action = h.act(None, BOT_ID);
    assert_eq!(action, TickAction::GuildUnresolved);
    assert_eq!(h.timer, 2);
}

#[test]
fn participant_in_another_channel_does_not_stop_the_counter() {
    let mut h = TimeoutHandler::new(cfg());
    let snap = vec![
        VoiceStateEntry { user_id: BOT_ID, channel_id: Some(20) },
        VoiceStateEntry { user_id: 5, channel_id: Some(21) },
        VoiceStateEntry { user_id: 6, channel_id: None },
    ];
    assert_eq!(h.act(Some(&snap), BOT_ID), TickAction::Stay);
    assert_eq!(h.timer, 1);
}

#[test]
fn new_watchdog_starts_at_zero() {
    let h = TimeoutHandler::new(cfg());
    assert_eq!(h.timer, 0);
    assert_eq!(h.cfg, cfg());
}
