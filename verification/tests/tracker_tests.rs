use persona::events::{ApiType, FeatureType, SessionEndReason, TrackingEvent};
use persona::sink::SinkOp;
use persona::tracker::{InteractionTracker, DEFAULT_IDLE_TIMEOUT_MS};

const MINUTE: u64 = 60_000;

fn count_end_ops(ops: &[SinkOp]) -> usize {
    ops.iter().filter(|op| matches!(op, SinkOp::EndSession { .. })).count()
}

fn drain(tracker: &mut InteractionTracker, now: u64) -> Vec<Vec<SinkOp>> {
    let mut batches = Vec::new();
    while let Some(ops) = tracker.process_next(now) {
        batches.push(ops);
    }
    batches
}

#[test]
fn scenario_resolve_twice_returns_one_session() {
    let mut tracker = InteractionTracker::new(DEFAULT_IDLE_TIMEOUT_MS);
    let first = tracker.resolve_or_create_session("t1", "u1", "c1").unwrap();
    let second = tracker.resolve_or_create_session("t1", "u1", "c1").unwrap();
    assert_eq!(first, second);
    // A generated identifier is a hyphenated random id, 36 characters.
    assert_eq!(first.len(), 36);
    // Exactly one session-start event was enqueued.
    assert_eq!(tracker.queue.len(), 1);
    assert!(matches!(&tracker.queue[0], TrackingEvent::SessionStart { session_id, .. } if *session_id == first));
}

#[test]
fn scenario_three_messages_then_end() {
    let mut tracker = InteractionTracker::new(DEFAULT_IDLE_TIMEOUT_MS);
    let sid = tracker.resolve_or_create_with_id("t1", "u1", "c1", 0, "s1".to_string());
    assert_eq!(sid, "s1");
    tracker.track_message_received(&sid, "t1", "u1", "c1", "m1", 10, false);
    tracker.track_message_received(&sid, "t1", "u1", "c1", "m2", 20, false);
    tracker.track_message_received(&sid, "t1", "u1", "c1", "m3", 30, true);
    tracker.track_session_end(&sid, SessionEndReason::UserLeft);
    let batches = drain(&mut tracker, 1000);
    // Start, three messages, end.
    assert_eq!(batches.len(), 5);
    let final_ops = batches.last().unwrap();
    let mut saw_counters = false;
    for op in final_ops {
        if let SinkOp::UpdateSessionCounters { session_id, message_count, user_chars, bot_chars, .. } = op {
            saw_counters = true;
            assert_eq!(session_id, "s1");
            assert_eq!(*message_count, 3);
            assert_eq!(*user_chars, 60);
            assert_eq!(*bot_chars, 0);
        }
    }
    assert!(saw_counters);
    assert_eq!(count_end_ops(final_ops), 1);
}

#[test]
fn scenario_idle_session_is_reaped() {
    // A 30-minute policy; the session idles 31 minutes.
    let mut tracker = InteractionTracker::new(30 * MINUTE);
    let sid = tracker.resolve_or_create_with_id("t1", "u1", "c1", 0, "s1".to_string());
    let _ = drain(&mut tracker, 0);
    let emitted = tracker.scan_and_emit(31 * MINUTE);
    assert_eq!(emitted, 1);
    assert_eq!(tracker.queue.len(), 1);
    assert!(matches!(
        &tracker.queue[0],
        TrackingEvent::SessionEnd { session_id, reason: SessionEndReason::InactivityTimeout }
            if *session_id == sid
    ));
    let batches = drain(&mut tracker, 31 * MINUTE);
    assert_eq!(batches.len(), 1);
    assert_eq!(count_end_ops(&batches[0]), 1);
    // The registry no longer holds the key.
    assert!(!tracker.contains_key("t1", "u1", "c1"));
}

#[test]
fn scenario_recent_session_is_not_reaped() {
    let mut tracker = InteractionTracker::new(30 * MINUTE);
    let _ = tracker.resolve_or_create_with_id("t1", "u1", "c1", 0, "s1".to_string());
    let _ = drain(&mut tracker, 0);
    // 29 minutes idle: under the policy, nothing is emitted; and
    // exactly 30 minutes is still not over the threshold.
    assert_eq!(tracker.scan_and_emit(29 * MINUTE), 0);
    assert_eq!(tracker.scan_and_emit(30 * MINUTE), 0);
    assert_eq!(tracker.queue.len(), 0);
    assert!(tracker.contains_key("t1", "u1", "c1"));
}

#[test]
fn scenario_api_costs_aggregate_order_independent() {
    let mut tracker = InteractionTracker::new(DEFAULT_IDLE_TIMEOUT_MS);
    let sid = tracker.resolve_or_create_with_id("t1", "u1", "c1", 0, "s1".to_string());
    let _ = drain(&mut tracker, 0);
    // Two API-call accounted events, each 100 tokens and $0.01
    // (10_000 microdollars).
    tracker.track_api_call(&sid, "t1", "u1", ApiType::Chat, Some(100), 10_000);
    tracker.track_api_call(&sid, "t1", "u1", ApiType::Chat, Some(100), 10_000);
    let batches = drain(&mut tracker, 1000);
    assert_eq!(batches.len(), 2);

    let totals = |batches: &[Vec<SinkOp>]| {
        let mut tokens: u64 = 0;
        let mut cost: u64 = 0;
        for ops in batches {
            for op in ops {
                if let SinkOp::UpsertMetric { metric_name, delta_value, .. } = op {
                    if metric_name == "chat" {
                        tokens += delta_value;
                    }
                    if metric_name == "api_cost_microdollars" {
                        cost += delta_value;
                    }
                }
            }
        }
        (tokens, cost)
    };
    let forward = totals(&batches);
    let mut reversed = batches.clone();
    reversed.reverse();
    let backward = totals(&reversed);
    // 200 tokens and $0.02 in total, whichever order the sink applies.
    assert_eq!(forward, (200, 20_000));
    assert_eq!(backward, forward);
}

#[test]
fn scenario_explicit_and_reaper_end_finalize_once() {
    let mut tracker = InteractionTracker::new(30 * MINUTE);
    let sid = tracker.resolve_or_create_with_id("t1", "u1", "c1", 0, "s1".to_string());
    let _ = drain(&mut tracker, 0);
    // The user leaves and, concurrently, the reaper notices the idle
    // session: both events reach the processor.
    tracker.track_session_end(&sid, SessionEndReason::UserLeft);
    assert_eq!(tracker.scan_and_emit(31 * MINUTE), 1);
    let batches = drain(&mut tracker, 31 * MINUTE);
    assert_eq!(batches.len(), 2);
    // Exactly one finalization write; the second end is an audit-only
    // no-op.
    let total_end_ops: usize = batches.iter().map(|ops| count_end_ops(ops)).sum();
    assert_eq!(total_end_ops, 1);
    assert_eq!(batches[1].len(), 1);
    assert!(matches!(&batches[1][0], SinkOp::AppendEvent { .. }));
}

#[test]
fn duplicate_end_is_idempotent() {
    let mut tracker = InteractionTracker::new(DEFAULT_IDLE_TIMEOUT_MS);
    let sid = tracker.resolve_or_create_with_id("t1", "u1", "c1", 0, "s1".to_string());
    let _ = drain(&mut tracker, 0);
    let first = tracker.process_event(
        TrackingEvent::SessionEnd { session_id: sid.clone(), reason: SessionEndReason::UserLeft },
        10,
    );
    let second = tracker.process_event(
        TrackingEvent::SessionEnd { session_id: sid.clone(), reason: SessionEndReason::UserLeft },
        20,
    );
    assert_eq!(count_end_ops(&first), 1);
    assert_eq!(count_end_ops(&second), 0);
    assert_eq!(second.len(), 1);
}

#[test]
fn expired_entry_is_replaced_under_same_key() {
    let mut tracker = InteractionTracker::new(30 * MINUTE);
    let first = tracker.resolve_or_create_with_id("t1", "u1", "c1", 0, "s1".to_string());
    // Within the idle window the same session resolves.
    let again = tracker.resolve_or_create_with_id("t1", "u1", "c1", 29 * MINUTE, "s2".to_string());
    assert_eq!(first, again);
    // After expiry a fresh session replaces the stale entry.
    let fresh = tracker.resolve_or_create_with_id("t1", "u1", "c1", 61 * MINUTE, "s3".to_string());
    assert_eq!(fresh, "s3");
    assert!(tracker.has_session_id("s3"));
    assert!(!tracker.has_session_id("s1"));
}

#[test]
fn tenant_isolation_on_colliding_keys() {
    let mut tracker = InteractionTracker::new(DEFAULT_IDLE_TIMEOUT_MS);
    // Same user and conversation ids under two different tenants.
    let sid_a = tracker.resolve_or_create_with_id("tenant_a", "u1", "c1", 0, "sa".to_string());
    let sid_b = tracker.resolve_or_create_with_id("tenant_b", "u1", "c1", 0, "sb".to_string());
    assert_ne!(sid_a, sid_b);
    let _ = drain(&mut tracker, 0);
    // Activity under tenant A must not touch tenant B's session.
    tracker.track_message_received(&sid_a, "tenant_a", "u1", "c1", "m1", 7, false);
    tracker.track_session_end(&sid_b, SessionEndReason::UserLeft);
    let batches = drain(&mut tracker, 5);
    let final_ops = batches.last().unwrap();
    for op in final_ops {
        if let SinkOp::UpdateSessionCounters { session_id, message_count, user_chars, .. } = op {
            assert_eq!(session_id, "sb");
            assert_eq!(*message_count, 0);
            assert_eq!(*user_chars, 0);
        }
    }
    assert!(tracker.contains_key("tenant_a", "u1", "c1"));
    assert!(!tracker.contains_key("tenant_b", "u1", "c1"));
}

#[test]
fn response_times_average_into_final_counters() {
    let mut tracker = InteractionTracker::new(DEFAULT_IDLE_TIMEOUT_MS);
    let sid = tracker.resolve_or_create_with_id("t1", "u1", "c1", 0, "s1".to_string());
    tracker.track_message_sent(&sid, "t1", "u1", "c1", "m1", 5, 100);
    tracker.track_message_sent(&sid, "t1", "u1", "c1", "m2", 5, 201);
    tracker.track_session_end(&sid, SessionEndReason::BotRestart);
    let batches = drain(&mut tracker, 50);
    let final_ops = batches.last().unwrap();
    let mut saw = false;
    for op in final_ops {
        if let SinkOp::UpdateSessionCounters { message_count, bot_chars, avg_response_time_ms, .. } = op {
            saw = true;
            assert_eq!(*message_count, 2);
            assert_eq!(*bot_chars, 10);
            // Mean of 100 and 201, rounded down.
            assert_eq!(*avg_response_time_ms, 150);
        }
    }
    assert!(saw);
}

#[test]
fn closed_channel_drops_events() {
    let mut tracker = InteractionTracker::new(DEFAULT_IDLE_TIMEOUT_MS);
    tracker.close();
    tracker.track_message_received("s9", "t1", "u1", "c1", "m1", 3, false);
    tracker.track_session_end("s9", SessionEndReason::UserLeft);
    assert_eq!(tracker.queue.len(), 0);
    // Resolution still works, but its start announcement is dropped.
    let sid = tracker.resolve_or_create_with_id("t1", "u1", "c1", 0, "s1".to_string());
    assert_eq!(sid, "s1");
    assert_eq!(tracker.queue.len(), 0);
}

#[test]
fn feature_use_accounted_per_feature() {
    let mut tracker = InteractionTracker::new(DEFAULT_IDLE_TIMEOUT_MS);
    let sid = tracker.resolve_or_create_with_id("t1", "u1", "c1", 0, "s1".to_string());
    let _ = drain(&mut tracker, 0);
    tracker.track_feature_used(&sid, "t1", "u1", FeatureType::AudioTranscription, "voice note".to_string());
    let batches = drain(&mut tracker, 3);
    assert_eq!(batches.len(), 1);
    let mut saw = false;
    for op in &batches[0] {
        if let SinkOp::UpsertMetric { metric_name, delta_count, delta_value, .. } = op {
            saw = true;
            assert_eq!(metric_name, "audio");
            assert_eq!(*delta_count, 1);
            assert_eq!(*delta_value, 0);
        }
    }
    assert!(saw);
}

#[test]
fn counter_overflow_drops_increment_not_session() {
    let mut tracker = InteractionTracker::new(DEFAULT_IDLE_TIMEOUT_MS);
    let sid = tracker.resolve_or_create_with_id("t1", "u1", "c1", 0, "s1".to_string());
    let _ = drain(&mut tracker, 0);
    // A first message saturating the character budget is counted; a
    // second cannot fit and is dropped while the session stays alive.
    tracker.track_message_received(&sid, "t1", "u1", "c1", "m1", u64::MAX, false);
    tracker.track_message_received(&sid, "t1", "u1", "c1", "m2", 10, false);
    tracker.track_session_end(&sid, SessionEndReason::UserLeft);
    let batches = drain(&mut tracker, 9);
    let final_ops = batches.last().unwrap();
    for op in final_ops {
        if let SinkOp::UpdateSessionCounters { message_count, user_chars, .. } = op {
            assert_eq!(*message_count, 1);
            assert_eq!(*user_chars, u64::MAX);
        }
    }
    assert_eq!(count_end_ops(final_ops), 1);
}

#[test]
fn active_session_ids_lists_live_sessions() {
    let mut tracker = InteractionTracker::new(DEFAULT_IDLE_TIMEOUT_MS);
    let _ = tracker.resolve_or_create_with_id("t1", "u1", "c1", 0, "s1".to_string());
    let _ = tracker.resolve_or_create_with_id("t2", "u1", "c1", 0, "s2".to_string());
    let ids = tracker.active_session_ids();
    assert_eq!(ids, vec!["s1".to_string(), "s2".to_string()]);
}

#[test]
fn session_end_reasons_have_stable_codes() {
    assert_eq!(SessionEndReason::InactivityTimeout.as_str(), "timeout");
    assert_eq!(SessionEndReason::UserLeft.as_str(), "user_left");
    assert_eq!(SessionEndReason::BotRestart.as_str(), "bot_restart");
    assert_eq!(ApiType::Whisper.as_str(), "whisper");
    assert_eq!(ApiType::DallE.as_str(), "dalle");
    assert_eq!(FeatureType::SlashCommand.as_str(), "slash_command");
}
