//! The tracking pipeline: session registry, event-channel model,
//! producer API, event processor and timeout reaper.
//!
//! The pipeline is modelled as one sequential state machine: producers
//! append envelopes to a FIFO queue, the processor pops them one at a
//! time and applies them to the registry, handing back the persistence
//! writes it decided on.  The caller owns the concurrency (locking,
//! tasks, the real channel) and the persistence sink; every decision
//! the pipeline makes is verified here.

use crate::events::{ApiType, FeatureType, PayloadValue, SessionEndReason, TrackingEvent};
use crate::session::SessionState;
use crate::sink::SinkOp;
use vstd::prelude::*;

verus! {

/// Default idle timeout: 30 minutes, in milliseconds.
pub const DEFAULT_IDLE_TIMEOUT_MS: u64 = 1800000;

/// Default reaper period: 5 minutes, in milliseconds.
pub const DEFAULT_REAPER_PERIOD_MS: u64 = 300000;

/// Relies on uuid::Uuid::new_v4 and its Display form: a freshly drawn
/// random version-4 identifier, rendered hyphenated as 36 characters.
/// Nothing is assumed about which identifier comes out.
#[verifier::external_body]
fn new_session_id() -> (r: String)
    ensures
        r@.len() == 36,
{
    uuid::Uuid::new_v4().to_string()
}

/// Relies on chrono::Utc::now and DateTime::timestamp_millis: the
/// current wall-clock instant in milliseconds since the Unix epoch.
/// Nothing is promised of the value; the pipeline states what holds
/// for every instant handed to it.
#[verifier::external_body]
fn now_millis() -> i64 {
    chrono::Utc::now().timestamp_millis()
}

/// The observation clock: the current instant in milliseconds, clamped
/// to zero for clocks set before the epoch.
pub fn observation_now() -> u64 {
    let t = now_millis();
    if t < 0 {
        0
    } else {
        t as u64
    }
}

/// Two session states describe the same session key.
pub open spec fn same_key(a: SessionState, b: SessionState) -> bool {
    &&& a.tenant_id@ == b.tenant_id@
    &&& a.user_id@ == b.user_id@
    &&& a.conversation_id@ == b.conversation_id@
}

/// A session state carries the given tenant-scoped key.
pub open spec fn key_matches(s: SessionState, t: Seq<char>, u: Seq<char>, c: Seq<char>) -> bool {
    &&& s.tenant_id@ == t
    &&& s.user_id@ == u
    &&& s.conversation_id@ == c
}

/// Registry well-formedness: at most one entry per session key, all
/// session ids distinct, and every entry internally consistent.
pub open spec fn registry_wf(entries: Seq<SessionState>) -> bool {
    &&& forall|i: int, j: int|
        0 <= i < j < entries.len() ==> !same_key(entries[i], entries[j])
    &&& forall|i: int, j: int|
        0 <= i < j < entries.len() ==> entries[i].session_id@ != entries[j].session_id@
    &&& forall|i: int| 0 <= i < entries.len() ==> entries[i].wf()
}

/// Some entry carries the given key.
pub open spec fn has_key(entries: Seq<SessionState>, t: Seq<char>, u: Seq<char>, c: Seq<char>) -> bool {
    exists|i: int| 0 <= i < entries.len() && key_matches(entries[i], t, u, c)
}

/// Some entry carries the given key and is not expired at `now`.
pub open spec fn has_live_key(
    entries: Seq<SessionState>,
    t: Seq<char>,
    u: Seq<char>,
    c: Seq<char>,
    now: u64,
    idle_timeout_ms: u64,
) -> bool {
    exists|i: int|
        0 <= i < entries.len() && key_matches(entries[i], t, u, c) && !entries[i].spec_expired(
            now,
            idle_timeout_ms,
        )
}

/// Some entry carries the given session id.
pub open spec fn spec_has_id(entries: Seq<SessionState>, sid: Seq<char>) -> bool {
    exists|i: int| 0 <= i < entries.len() && entries[i].session_id@ == sid
}

/// A just-created session state: the given identity, the creation
/// instant, and all counters zero.
pub open spec fn is_fresh_entry(
    s: SessionState,
    sid: Seq<char>,
    t: Seq<char>,
    u: Seq<char>,
    c: Seq<char>,
    now: u64,
) -> bool {
    &&& s.session_id@ == sid
    &&& key_matches(s, t, u, c)
    &&& s.created_at == now
    &&& s.last_activity_at == now
    &&& s.message_count == 0
    &&& s.user_message_count == 0
    &&& s.bot_message_count == 0
    &&& s.total_user_chars == 0
    &&& s.total_bot_chars == 0
    &&& s.response_times@ == Seq::<u64>::empty()
    &&& s.response_time_total == 0
}

/// The envelope announcing that session `sid` started under key
/// `(t, u, c)`.
pub open spec fn is_start_event(
    e: TrackingEvent,
    sid: Seq<char>,
    t: Seq<char>,
    u: Seq<char>,
    c: Seq<char>,
) -> bool {
    &&& e matches TrackingEvent::SessionStart { session_id, tenant_id, user_id, conversation_id }
    &&& session_id@ == sid
    &&& tenant_id@ == t
    &&& user_id@ == u
    &&& conversation_id@ == c
}

/// The envelope ending session `sid` for `reason`.
pub open spec fn is_end_event(e: TrackingEvent, sid: Seq<char>, reason: SessionEndReason) -> bool {
    &&& e matches TrackingEvent::SessionEnd { session_id, reason: r }
    &&& session_id@ == sid
    &&& r == reason
}

/// The sequential model of the whole pipeline: the session registry,
/// the FIFO event channel, the channel's shutdown flag and the idle
/// timeout policy.
pub struct InteractionTracker {
    /// Live sessions; producers resolve keys here, the processor owns
    /// all mutation of business fields.
    pub registry: Vec<SessionState>,
    /// Events enqueued by producers and not yet processed, oldest first.
    pub queue: Vec<TrackingEvent>,
    /// Once closed, enqueue attempts are dropped; tracking is strictly
    /// best-effort.
    pub closed: bool,
    /// Idle timeout policy, in milliseconds.
    pub idle_timeout_ms: u64,
}

/// What resolving a key does to the pipeline: return the live session's
/// id untouched, or install a fresh session (replacing an expired entry
/// under the same key if one exists) and announce it on the channel.
pub open spec fn resolve_applied(
    pre: InteractionTracker,
    post: InteractionTracker,
    t: Seq<char>,
    u: Seq<char>,
    c: Seq<char>,
    now: u64,
    fresh: Seq<char>,
    sid: Seq<char>,
) -> bool {
    &&& post.closed == pre.closed
    &&& post.idle_timeout_ms == pre.idle_timeout_ms
    &&& if has_live_key(pre.registry@, t, u, c, now, pre.idle_timeout_ms) {
        &&& post.registry@ == pre.registry@
        &&& post.queue@ == pre.queue@
        &&& exists|i: int|
            #![auto]
            0 <= i < pre.registry@.len() && key_matches(pre.registry@[i], t, u, c)
                && !pre.registry@[i].spec_expired(now, pre.idle_timeout_ms)
                && sid == pre.registry@[i].session_id@
    } else {
        &&& sid == fresh
        &&& if has_key(pre.registry@, t, u, c) {
            exists|i: int|
                #![auto]
                0 <= i < pre.registry@.len() && key_matches(pre.registry@[i], t, u, c)
                    && post.registry@.len() == pre.registry@.len() && is_fresh_entry(
                    post.registry@[i],
                    fresh,
                    t,
                    u,
                    c,
                    now,
                ) && (forall|j: int|
                    0 <= j < pre.registry@.len() && j != i ==> post.registry@[j]
                        == pre.registry@[j])
        } else {
            &&& post.registry@.len() == pre.registry@.len() + 1
            &&& post.registry@.subrange(0, pre.registry@.len() as int) == pre.registry@
            &&& is_fresh_entry(post.registry@.last(), fresh, t, u, c, now)
        }
        &&& if pre.closed {
            post.queue@ == pre.queue@
        } else {
            &&& post.queue@.len() == pre.queue@.len() + 1
            &&& post.queue@.subrange(0, pre.queue@.len() as int) == pre.queue@
            &&& is_start_event(post.queue@.last(), fresh, t, u, c)
        }
    }
}

/// The pipeline moved from `pre` to `post` by resolving key `(t, u, c)`
/// to `sid` at some instant, with some fresh identifier at hand.
pub open spec fn resolved_somehow(
    pre: InteractionTracker,
    post: InteractionTracker,
    t: Seq<char>,
    u: Seq<char>,
    c: Seq<char>,
    sid: Seq<char>,
) -> bool {
    exists|now: u64, fresh: Seq<char>| resolve_applied(pre, post, t, u, c, now, fresh, sid)
}

proof fn lemma_resolved_somehow(
    pre: InteractionTracker,
    post: InteractionTracker,
    t: Seq<char>,
    u: Seq<char>,
    c: Seq<char>,
    now: u64,
    fresh: Seq<char>,
    sid: Seq<char>,
)
    requires
        resolve_applied(pre, post, t, u, c, now, fresh, sid),
    ensures
        resolved_somehow(pre, post, t, u, c, sid),
{
    assert(resolve_applied(pre, post, t, u, c, now, fresh, sid));
}

/// A session state whose only change is a refreshed last-activity
/// instant.
pub open spec fn touched(pre: SessionState, post: SessionState, now: u64) -> bool {
    post == (SessionState { last_activity_at: now, ..pre })
}

/// What counting one user message does to a session: the message and
/// character counters step exactly when they fit in their machine
/// range, and the activity instant is refreshed either way.
pub open spec fn user_message_applied(
    pre: SessionState,
    post: SessionState,
    chars: u64,
    now: u64,
) -> bool {
    if pre.user_message_fits(chars) {
        post == (SessionState {
            message_count: (pre.message_count + 1) as u64,
            user_message_count: (pre.user_message_count + 1) as u64,
            total_user_chars: (pre.total_user_chars + chars) as u64,
            last_activity_at: now,
            ..pre
        })
    } else {
        touched(pre, post, now)
    }
}

/// What counting one bot message does to a session.
pub open spec fn bot_message_applied(
    pre: SessionState,
    post: SessionState,
    chars: u64,
    response_time_ms: u64,
    now: u64,
) -> bool {
    if pre.bot_message_fits(chars, response_time_ms) {
        &&& post.session_id == pre.session_id
        &&& post.tenant_id == pre.tenant_id
        &&& post.user_id == pre.user_id
        &&& post.conversation_id == pre.conversation_id
        &&& post.created_at == pre.created_at
        &&& post.last_activity_at == now
        &&& post.message_count == pre.message_count + 1
        &&& post.user_message_count == pre.user_message_count
        &&& post.bot_message_count == pre.bot_message_count + 1
        &&& post.total_user_chars == pre.total_user_chars
        &&& post.total_bot_chars == pre.total_bot_chars + chars
        &&& post.response_times@ == pre.response_times@.push(response_time_ms)
        &&& post.response_time_total == pre.response_time_total + response_time_ms
    } else {
        touched(pre, post, now)
    }
}

/// The registry after refreshing the activity of the session carrying
/// id `sid` under tenant `t`; unchanged when no entry of that tenant
/// carries the id.  The tenant guard keeps an id quoted by one tenant
/// from ever touching another tenant's session.
pub open spec fn touched_by_id(
    pre: Seq<SessionState>,
    post: Seq<SessionState>,
    sid: Seq<char>,
    t: Seq<char>,
    now: u64,
) -> bool {
    if exists|k: int|
        0 <= k < pre.len() && pre[k].session_id@ == sid && pre[k].tenant_id@ == t {
        exists|k: int|
            #![auto]
            0 <= k < pre.len() && pre[k].session_id@ == sid && pre[k].tenant_id@ == t && post.len()
                == pre.len() && touched(pre[k], post[k], now) && (forall|j: int|
                0 <= j < pre.len() && j != k ==> post[j] == pre[j])
    } else {
        post == pre
    }
}

/// The metric name under which an API call is accounted.
pub open spec fn api_metric_name(a: ApiType) -> Seq<char> {
    match a {
        ApiType::Chat => "chat"@,
        ApiType::Whisper => "whisper"@,
        ApiType::DallE => "dalle"@,
    }
}

/// The metric name under which a feature use is accounted.
pub open spec fn feature_metric_name(f: FeatureType) -> Seq<char> {
    match f {
        FeatureType::AudioTranscription => "audio"@,
        FeatureType::SlashCommand => "slash_command"@,
    }
}

/// Accounted token count: the reported number, or zero when none was
/// reported.
pub open spec fn tokens_value(t: Option<u32>) -> u64 {
    match t {
        Some(v) => v as u64,
        None => 0,
    }
}

/// A create-session write for the given identity.
pub open spec fn is_create_op(
    op: SinkOp,
    sid: Seq<char>,
    t: Seq<char>,
    u: Seq<char>,
    c: Seq<char>,
) -> bool {
    &&& op matches SinkOp::CreateSession { session_id, tenant_id, user_id, conversation_id }
    &&& session_id@ == sid
    &&& tenant_id@ == t
    &&& user_id@ == u
    &&& conversation_id@ == c
}

/// An end-session write for `sid` with the given reason.
pub open spec fn is_end_op(op: SinkOp, sid: Seq<char>, reason: SessionEndReason) -> bool {
    &&& op matches SinkOp::EndSession { session_id, reason: r }
    &&& session_id@ == sid
    &&& r == reason
}

/// A counters write carrying exactly the final counters of `s`.
pub open spec fn is_counters_op(op: SinkOp, s: SessionState) -> bool {
    &&& op matches SinkOp::UpdateSessionCounters {
        session_id,
        message_count,
        user_chars,
        bot_chars,
        avg_response_time_ms,
    }
    &&& session_id@ == s.session_id@
    &&& message_count == s.message_count
    &&& user_chars == s.total_user_chars
    &&& bot_chars == s.total_bot_chars
    &&& avg_response_time_ms == s.spec_avg_response_time()
}

/// An audit append for `sid` of the given event type and identity.
pub open spec fn is_append_op(
    op: SinkOp,
    sid: Seq<char>,
    event_type: Seq<char>,
    t: Seq<char>,
    u: Seq<char>,
    c: Seq<char>,
) -> bool {
    &&& op matches SinkOp::AppendEvent {
        session_id,
        event_type: ty,
        tenant_id,
        user_id,
        conversation_id,
        payload,
    }
    &&& session_id@ == sid
    &&& ty@ == event_type
    &&& tenant_id@ == t
    &&& user_id@ == u
    &&& conversation_id@ == c
}

/// An atomic metric upsert for `sid` with exactly these deltas.
pub open spec fn is_upsert_op(
    op: SinkOp,
    sid: Seq<char>,
    name: Seq<char>,
    delta_count: u64,
    delta_value: u64,
) -> bool {
    &&& op matches SinkOp::UpsertMetric { session_id, metric_name, delta_count: dc, delta_value: dv }
    &&& session_id@ == sid
    &&& metric_name@ == name
    &&& dc == delta_count
    &&& dv == delta_value
}

/// What processing one event does: how the registry moves and exactly
/// which persistence writes are issued, per event kind.
pub open spec fn event_applied(
    pre: Seq<SessionState>,
    post: Seq<SessionState>,
    event: TrackingEvent,
    now: u64,
    ops: Seq<SinkOp>,
) -> bool {
    match event {
        TrackingEvent::SessionStart { session_id, tenant_id, user_id, conversation_id } => {
            &&& post == pre
            &&& ops.len() == 2
            &&& is_create_op(ops[0], session_id@, tenant_id@, user_id@, conversation_id@)
            &&& is_append_op(
                ops[1],
                session_id@,
                "session_start"@,
                tenant_id@,
                user_id@,
                conversation_id@,
            )
        },
        TrackingEvent::SessionEnd { session_id, reason } => {
            if spec_has_id(pre, session_id@) {
                exists|k: int|
                    #![auto]
                    0 <= k < pre.len() && pre[k].session_id@ == session_id@ && post == pre.remove(
                        k,
                    ) && ops.len() == 3 && is_counters_op(ops[0], pre[k]) && is_end_op(
                        ops[1],
                        session_id@,
                        reason,
                    ) && is_append_op(
                        ops[2],
                        session_id@,
                        "session_end"@,
                        pre[k].tenant_id@,
                        pre[k].user_id@,
                        pre[k].conversation_id@,
                    )
            } else {
                &&& post == pre
                &&& ops.len() == 1
                &&& is_append_op(ops[0], session_id@, "session_end"@, ""@, ""@, ""@)
            }
        },
        TrackingEvent::MessageReceived {
            session_id,
            tenant_id,
            user_id,
            conversation_id,
            message_id,
            character_count,
            has_attachments,
        } => {
            &&& ops.len() == 1
            &&& is_append_op(
                ops[0],
                session_id@,
                "message_received"@,
                tenant_id@,
                user_id@,
                conversation_id@,
            )
            &&& if has_key(pre, tenant_id@, user_id@, conversation_id@) {
                exists|k: int|
                    #![auto]
                    0 <= k < pre.len() && key_matches(pre[k], tenant_id@, user_id@, conversation_id@)
                        && post.len() == pre.len() && user_message_applied(
                        pre[k],
                        post[k],
                        character_count,
                        now,
                    ) && (forall|j: int| 0 <= j < pre.len() && j != k ==> post[j] == pre[j])
            } else {
                post == pre
            }
        },
        TrackingEvent::MessageSent {
            session_id,
            tenant_id,
            user_id,
            conversation_id,
            message_id,
            character_count,
            response_time_ms,
        } => {
            &&& ops.len() == 1
            &&& is_append_op(
                ops[0],
                session_id@,
                "message_sent"@,
                tenant_id@,
                user_id@,
                conversation_id@,
            )
            &&& if has_key(pre, tenant_id@, user_id@, conversation_id@) {
                exists|k: int|
                    #![auto]
                    0 <= k < pre.len() && key_matches(pre[k], tenant_id@, user_id@, conversation_id@)
                        && post.len() == pre.len() && bot_message_applied(
                        pre[k],
                        post[k],
                        character_count,
                        response_time_ms,
                        now,
                    ) && (forall|j: int| 0 <= j < pre.len() && j != k ==> post[j] == pre[j])
            } else {
                post == pre
            }
        },
        TrackingEvent::ApiCall { session_id, tenant_id, user_id, api_type, tokens, cost_microdollars } => {
            &&& ops.len() == 3
            &&& is_append_op(ops[0], session_id@, "api_call"@, tenant_id@, user_id@, ""@)
            &&& is_upsert_op(ops[1], session_id@, api_metric_name(api_type), 1, tokens_value(tokens))
            &&& is_upsert_op(ops[2], session_id@, "api_cost_microdollars"@, 0, cost_microdollars)
            &&& touched_by_id(pre, post, session_id@, tenant_id@, now)
        },
        TrackingEvent::FeatureUsed { session_id, tenant_id, user_id, feature, feature_detail } => {
            &&& ops.len() == 2
            &&& is_append_op(ops[0], session_id@, "feature_used"@, tenant_id@, user_id@, ""@)
            &&& is_upsert_op(ops[1], session_id@, feature_metric_name(feature), 1, 0)
            &&& touched_by_id(pre, post, session_id@, tenant_id@, now)
        },
    }
}

/// The session-end envelopes the reaper emits for a registry scan at
/// `now`: one per expired entry, in registry order, with reason
/// `InactivityTimeout`.
pub open spec fn timeout_end_events(
    entries: Seq<SessionState>,
    now: u64,
    idle_timeout_ms: u64,
) -> Seq<TrackingEvent>
    decreases entries.len(),
{
    if entries.len() == 0 {
        Seq::empty()
    } else {
        let init = timeout_end_events(entries.drop_last(), now, idle_timeout_ms);
        if entries.last().spec_expired(now, idle_timeout_ms) {
            init.push(
                TrackingEvent::SessionEnd {
                    session_id: entries.last().session_id,
                    reason: SessionEndReason::InactivityTimeout,
                },
            )
        } else {
            init
        }
    }
}

/// Removing an entry keeps the registry well-formed.
pub proof fn lemma_registry_wf_remove(entries: Seq<SessionState>, k: int)
    requires
        registry_wf(entries),
        0 <= k < entries.len(),
    ensures
        registry_wf(entries.remove(k)),
{
    let post = entries.remove(k);
    assert forall|m: int, n: int| 0 <= m < n < post.len() implies !same_key(post[m], post[n])
        && post[m].session_id@ != post[n].session_id@ by {
        let m0 = if m < k {
            m
        } else {
            m + 1
        };
        let n0 = if n < k {
            n
        } else {
            n + 1
        };
        assert(post[m] == entries[m0]);
        assert(post[n] == entries[n0]);
        assert(!same_key(entries[m0], entries[n0]));
        assert(entries[m0].session_id@ != entries[n0].session_id@);
    }
    assert forall|m: int| 0 <= m < post.len() implies post[m].wf() by {
        let m0 = if m < k {
            m
        } else {
            m + 1
        };
        assert(post[m] == entries[m0]);
    }
}

/// Replacing an entry by one with the same key, the same id and a
/// well-formed state keeps the registry well-formed.
pub proof fn lemma_registry_wf_update(entries: Seq<SessionState>, k: int, e: SessionState)
    requires
        registry_wf(entries),
        0 <= k < entries.len(),
        same_key(e, entries[k]),
        e.session_id@ == entries[k].session_id@,
        e.wf(),
    ensures
        registry_wf(entries.update(k, e)),
{
    let post = entries.update(k, e);
    assert forall|m: int, n: int| 0 <= m < n < post.len() implies !same_key(post[m], post[n])
        && post[m].session_id@ != post[n].session_id@ by {
        assert(!same_key(entries[m], entries[n]));
        assert(entries[m].session_id@ != entries[n].session_id@);
    }
}

/// First registry index whose entry carries the given session id.
fn find_id_index(entries: &Vec<SessionState>, session_id: &str) -> (r: Option<usize>)
    ensures
        r matches Some(i) ==> i < entries@.len() && entries@[i as int].session_id@ == session_id@,
        r is None ==> !spec_has_id(entries@, session_id@),
{
    let sid = session_id.to_owned();
    let mut i: usize = 0;
    while i < entries.len()
        invariant
            i <= entries@.len(),
            sid@ == session_id@,
            forall|j: int| 0 <= j < i ==> entries@[j].session_id@ != session_id@,
        decreases entries@.len() - i,
    {
        if entries[i].session_id == sid {
            return Some(i);
        }
        i = i + 1;
    }
    None
}

/// First registry index whose entry carries the given key.
fn find_key_index(
    entries: &Vec<SessionState>,
    tenant_id: &str,
    user_id: &str,
    conversation_id: &str,
) -> (r: Option<usize>)
    ensures
        r matches Some(i) ==> i < entries@.len() && key_matches(
            entries@[i as int],
            tenant_id@,
            user_id@,
            conversation_id@,
        ),
        r is None ==> !has_key(entries@, tenant_id@, user_id@, conversation_id@),
{
    let t = tenant_id.to_owned();
    let u = user_id.to_owned();
    let c = conversation_id.to_owned();
    let mut i: usize = 0;
    while i < entries.len()
        invariant
            i <= entries@.len(),
            t@ == tenant_id@,
            u@ == user_id@,
            c@ == conversation_id@,
            forall|j: int|
                0 <= j < i ==> !key_matches(entries@[j], tenant_id@, user_id@, conversation_id@),
        decreases entries@.len() - i,
    {
        if entries[i].tenant_id == t && entries[i].user_id == u && entries[i].conversation_id
            == c {
            return Some(i);
        }
        i = i + 1;
    }
    None
}

impl InteractionTracker {
    /// The registry invariant, lifted to the whole pipeline.
    pub open spec fn wf(self) -> bool {
        registry_wf(self.registry@)
    }

    /// A fresh pipeline: no sessions, an empty channel, open for
    /// producers.
    pub fn new(idle_timeout_ms: u64) -> (t: InteractionTracker)
        ensures
            t.wf(),
            t.registry@.len() == 0,
            t.queue@.len() == 0,
            !t.closed,
            t.idle_timeout_ms == idle_timeout_ms,
    {
        InteractionTracker {
            registry: Vec::new(),
            queue: Vec::new(),
            closed: false,
            idle_timeout_ms,
        }
    }

    /// Whether some live entry carries the given session id.
    pub fn has_session_id(&self, session_id: &str) -> (r: bool)
        ensures
            r == spec_has_id(self.registry@, session_id@),
    {
        let sid = session_id.to_owned();
        let mut i: usize = 0;
        while i < self.registry.len()
            invariant
                i <= self.registry@.len(),
                sid@ == session_id@,
                forall|j: int| 0 <= j < i ==> self.registry@[j].session_id@ != session_id@,
            decreases self.registry@.len() - i,
        {
            if self.registry[i].session_id == sid {
                return true;
            }
            i = i + 1;
        }
        false
    }

    /// Resolve the key to its live session, or install a fresh session
    /// under the caller-supplied identifier.  The check and the insert
    /// are one step on this state; the caller guarantees the identifier
    /// is not already in use.
    pub fn resolve_or_create_with_id(
        &mut self,
        tenant_id: &str,
        user_id: &str,
        conversation_id: &str,
        now: u64,
        fresh_id: String,
    ) -> (sid: String)
        requires
            old(self).wf(),
            !spec_has_id(old(self).registry@, fresh_id@),
        ensures
            final(self).wf(),
            resolve_applied(
                *old(self),
                *final(self),
                tenant_id@,
                user_id@,
                conversation_id@,
                now,
                fresh_id@,
                sid@,
            ),
    {
        let ghost t = tenant_id@;
        let ghost u = user_id@;
        let ghost c = conversation_id@;
        let idx = find_key_index(&self.registry, tenant_id, user_id, conversation_id);
        match idx {
            Some(i) => {
                proof {
                    assert forall|j: int|
                        0 <= j < self.registry@.len() && key_matches(
                            self.registry@[j],
                            t,
                            u,
                            c,
                        ) implies j == i as int by {
                        if j < i as int {
                            assert(!same_key(self.registry@[j], self.registry@[i as int]));
                        } else if j > i as int {
                            assert(!same_key(self.registry@[i as int], self.registry@[j]));
                        }
                    }
                }
                if !self.registry[i].is_expired(now, self.idle_timeout_ms) {
                    let sid = self.registry[i].session_id.clone();
                    proof {
                        assert(has_live_key(self.registry@, t, u, c, now, self.idle_timeout_ms));
                    }
                    return sid;
                }
                // The entry under this key is stale: replace the mapping
                // entry so the expired state is never mutated again.
                proof {
                    assert(!has_live_key(
                        self.registry@,
                        t,
                        u,
                        c,
                        now,
                        self.idle_timeout_ms,
                    ));
                }
                let entry = SessionState::new(
                    fresh_id.clone(),
                    tenant_id.to_owned(),
                    user_id.to_owned(),
                    conversation_id.to_owned(),
                    now,
                );
                self.registry[i] = entry;
                proof {
                    let pre = old(self).registry@;
                    let post = self.registry@;
                    assert(post == pre.update(i as int, post[i as int]));
                    assert(is_fresh_entry(post[i as int], fresh_id@, t, u, c, now));
                    assert forall|m: int, n: int|
                        0 <= m < n < post.len() implies !same_key(post[m], post[n])
                            && post[m].session_id@ != post[n].session_id@ by {
                        assert(!same_key(pre[m], pre[n]));
                        assert(pre[m].session_id@ != pre[n].session_id@);
                    }
                    assert(registry_wf(post));
                }
                self.track_session_start(fresh_id.as_str(), tenant_id, user_id, conversation_id);
                fresh_id
            },
            None => {
                let entry = SessionState::new(
                    fresh_id.clone(),
                    tenant_id.to_owned(),
                    user_id.to_owned(),
                    conversation_id.to_owned(),
                    now,
                );
                self.registry.push(entry);
                proof {
                    let pre = old(self).registry@;
                    let post = self.registry@;
                    assert(post.subrange(0, pre.len() as int) =~= pre);
                    assert(is_fresh_entry(post.last(), fresh_id@, t, u, c, now));
                    assert forall|m: int, n: int|
                        0 <= m < n < post.len() implies !same_key(post[m], post[n])
                            && post[m].session_id@ != post[n].session_id@ by {
                        if n < pre.len() {
                            assert(!same_key(pre[m], pre[n]));
                            assert(pre[m].session_id@ != pre[n].session_id@);
                        } else {
                            assert(post[n] == post.last());
                            assert(!key_matches(pre[m], t, u, c));
                        }
                    }
                    assert(registry_wf(post));
                }
                self.track_session_start(fresh_id.as_str(), tenant_id, user_id, conversation_id);
                fresh_id
            },
        }
    }

    /// Resolve the key to a session id using the observation clock and a
    /// freshly generated identifier.  `None` only when the generated
    /// identifier collided with one already in use: the pipeline is then
    /// unchanged and the caller may simply retry.
    pub fn resolve_or_create_session(
        &mut self,
        tenant_id: &str,
        user_id: &str,
        conversation_id: &str,
    ) -> (r: Option<String>)
        requires
            old(self).wf(),
        ensures
            final(self).wf(),
            r is None ==> *final(self) == *old(self),
            r matches Some(sid) ==> resolved_somehow(
                *old(self),
                *final(self),
                tenant_id@,
                user_id@,
                conversation_id@,
                sid@,
            ),
    {
        let now = observation_now();
        let fresh = new_session_id();
        if self.has_session_id(fresh.as_str()) {
            return None;
        }
        let ghost fresh_view = fresh@;
        let sid = self.resolve_or_create_with_id(tenant_id, user_id, conversation_id, now, fresh);
        proof {
            lemma_resolved_somehow(
                *old(self),
                *self,
                tenant_id@,
                user_id@,
                conversation_id@,
                now,
                fresh_view,
                sid@,
            );
        }
        Some(sid)
    }

    /// Non-blocking enqueue of a session-start envelope; dropped without
    /// effect when the channel is closed.
    pub fn track_session_start(
        &mut self,
        session_id: &str,
        tenant_id: &str,
        user_id: &str,
        conversation_id: &str,
    )
        ensures
            final(self).registry == old(self).registry,
            final(self).closed == old(self).closed,
            final(self).idle_timeout_ms == old(self).idle_timeout_ms,
            old(self).closed ==> final(self).queue@ == old(self).queue@,
            !old(self).closed ==> {
                &&& final(self).queue@.len() == old(self).queue@.len() + 1
                &&& final(self).queue@.subrange(0, old(self).queue@.len() as int) == old(
                    self,
                ).queue@
                &&& is_start_event(
                    final(self).queue@.last(),
                    session_id@,
                    tenant_id@,
                    user_id@,
                    conversation_id@,
                )
            },
    {
        let event = TrackingEvent::SessionStart {
            session_id: session_id.to_owned(),
            tenant_id: tenant_id.to_owned(),
            user_id: user_id.to_owned(),
            conversation_id: conversation_id.to_owned(),
        };
        self.enqueue(event);
    }

    /// Non-blocking enqueue: append to the channel, or drop the event
    /// without effect when the channel is closed.  Producers never wait
    /// and never see an error.
    fn enqueue(&mut self, event: TrackingEvent)
        ensures
            final(self).registry == old(self).registry,
            final(self).closed == old(self).closed,
            final(self).idle_timeout_ms == old(self).idle_timeout_ms,
            old(self).closed ==> final(self).queue@ == old(self).queue@,
            !old(self).closed ==> final(self).queue@ == old(self).queue@.push(event),
            final(self).queue@.len() >= old(self).queue@.len(),
            final(self).queue@.subrange(0, old(self).queue@.len() as int) == old(self).queue@,
    {
        if self.closed {
            proof {
                assert(self.queue@.subrange(0, self.queue@.len() as int) =~= self.queue@);
            }
            return ;
        }
        self.queue.push(event);
        proof {
            assert(self.queue@.subrange(0, old(self).queue@.len() as int) =~= old(self).queue@);
        }
    }

    /// Close the channel to producers: every later enqueue is dropped.
    pub fn close(&mut self)
        ensures
            *final(self) == (InteractionTracker { closed: true, ..*old(self) }),
    {
        self.closed = true;
    }

    /// Enqueue a session-end envelope (non-blocking, best-effort).
    pub fn track_session_end(&mut self, session_id: &str, reason: SessionEndReason)
        ensures
            final(self).registry == old(self).registry,
            final(self).closed == old(self).closed,
            final(self).idle_timeout_ms == old(self).idle_timeout_ms,
            old(self).closed ==> final(self).queue@ == old(self).queue@,
            !old(self).closed ==> {
                &&& final(self).queue@.len() == old(self).queue@.len() + 1
                &&& final(self).queue@.subrange(0, old(self).queue@.len() as int) == old(
                    self,
                ).queue@
                &&& is_end_event(final(self).queue@.last(), session_id@, reason)
            },
    {
        let event = TrackingEvent::SessionEnd { session_id: session_id.to_owned(), reason };
        self.enqueue(event);
    }

    /// Enqueue a message-received envelope (non-blocking, best-effort).
    pub fn track_message_received(
        &mut self,
        session_id: &str,
        tenant_id: &str,
        user_id: &str,
        conversation_id: &str,
        message_id: &str,
        character_count: u64,
        has_attachments: bool,
    )
        ensures
            final(self).registry == old(self).registry,
            final(self).closed == old(self).closed,
            final(self).idle_timeout_ms == old(self).idle_timeout_ms,
            old(self).closed ==> final(self).queue@ == old(self).queue@,
            !old(self).closed ==> {
                &&& final(self).queue@.len() == old(self).queue@.len() + 1
                &&& final(self).queue@.subrange(0, old(self).queue@.len() as int) == old(
                    self,
                ).queue@
                &&& final(self).queue@.last() matches TrackingEvent::MessageReceived {
                    session_id: s,
                    tenant_id: t,
                    user_id: u,
                    conversation_id: c,
                    message_id: m,
                    character_count: n,
                    has_attachments: a,
                } && s@ == session_id@ && t@ == tenant_id@ && u@ == user_id@ && c@
                    == conversation_id@ && m@ == message_id@ && n == character_count && a
                    == has_attachments
            },
    {
        let event = TrackingEvent::MessageReceived {
            session_id: session_id.to_owned(),
            tenant_id: tenant_id.to_owned(),
            user_id: user_id.to_owned(),
            conversation_id: conversation_id.to_owned(),
            message_id: message_id.to_owned(),
            character_count,
            has_attachments,
        };
        self.enqueue(event);
    }

    /// Enqueue a message-sent envelope (non-blocking, best-effort).
    pub fn track_message_sent(
        &mut self,
        session_id: &str,
        tenant_id: &str,
        user_id: &str,
        conversation_id: &str,
        message_id: &str,
        character_count: u64,
        response_time_ms: u64,
    )
        ensures
            final(self).registry == old(self).registry,
            final(self).closed == old(self).closed,
            final(self).idle_timeout_ms == old(self).idle_timeout_ms,
            old(self).closed ==> final(self).queue@ == old(self).queue@,
            !old(self).closed ==> {
                &&& final(self).queue@.len() == old(self).queue@.len() + 1
                &&& final(self).queue@.subrange(0, old(self).queue@.len() as int) == old(
                    self,
                ).queue@
                &&& final(self).queue@.last() matches TrackingEvent::MessageSent {
                    session_id: s,
                    tenant_id: t,
                    user_id: u,
                    conversation_id: c,
                    message_id: m,
                    character_count: n,
                    response_time_ms: rt,
                } && s@ == session_id@ && t@ == tenant_id@ && u@ == user_id@ && c@
                    == conversation_id@ && m@ == message_id@ && n == character_count && rt
                    == response_time_ms
            },
    {
        let event = TrackingEvent::MessageSent {
            session_id: session_id.to_owned(),
            tenant_id: tenant_id.to_owned(),
            user_id: user_id.to_owned(),
            conversation_id: conversation_id.to_owned(),
            message_id: message_id.to_owned(),
            character_count,
            response_time_ms,
        };
        self.enqueue(event);
    }

    /// Enqueue an API-call accounting envelope (non-blocking,
    /// best-effort).  Cost is carried in microdollars.
    pub fn track_api_call(
        &mut self,
        session_id: &str,
        tenant_id: &str,
        user_id: &str,
        api_type: ApiType,
        tokens: Option<u32>,
        cost_microdollars: u64,
    )
        ensures
            final(self).registry == old(self).registry,
            final(self).closed == old(self).closed,
            final(self).idle_timeout_ms == old(self).idle_timeout_ms,
            old(self).closed ==> final(self).queue@ == old(self).queue@,
            !old(self).closed ==> {
                &&& final(self).queue@.len() == old(self).queue@.len() + 1
                &&& final(self).queue@.subrange(0, old(self).queue@.len() as int) == old(
                    self,
                ).queue@
                &&& final(self).queue@.last() matches TrackingEvent::ApiCall {
                    session_id: s,
                    tenant_id: t,
                    user_id: u,
                    api_type: a,
                    tokens: tk,
                    cost_microdollars: cm,
                } && s@ == session_id@ && t@ == tenant_id@ && u@ == user_id@ && a == api_type
                    && tk == tokens && cm == cost_microdollars
            },
    {
        let event = TrackingEvent::ApiCall {
            session_id: session_id.to_owned(),
            tenant_id: tenant_id.to_owned(),
            user_id: user_id.to_owned(),
            api_type,
            tokens,
            cost_microdollars,
        };
        self.enqueue(event);
    }

    /// Enqueue a feature-used envelope (non-blocking, best-effort).
    pub fn track_feature_used(
        &mut self,
        session_id: &str,
        tenant_id: &str,
        user_id: &str,
        feature: FeatureType,
        feature_detail: String,
    )
        ensures
            final(self).registry == old(self).registry,
            final(self).closed == old(self).closed,
            final(self).idle_timeout_ms == old(self).idle_timeout_ms,
            old(self).closed ==> final(self).queue@ == old(self).queue@,
            !old(self).closed ==> {
                &&& final(self).queue@.len() == old(self).queue@.len() + 1
                &&& final(self).queue@.subrange(0, old(self).queue@.len() as int) == old(
                    self,
                ).queue@
                &&& final(self).queue@.last() matches TrackingEvent::FeatureUsed {
                    session_id: s,
                    tenant_id: t,
                    user_id: u,
                    feature: f,
                    feature_detail: d,
                } && s@ == session_id@ && t@ == tenant_id@ && u@ == user_id@ && f == feature && d@
                    == feature_detail@
            },
    {
        let event = TrackingEvent::FeatureUsed {
            session_id: session_id.to_owned(),
            tenant_id: tenant_id.to_owned(),
            user_id: user_id.to_owned(),
            feature,
            feature_detail,
        };
        self.enqueue(event);
    }

    /// The session ids of all live entries, in registry order.
    pub fn active_session_ids(&self) -> (ids: Vec<String>)
        ensures
            ids@.len() == self.registry@.len(),
            forall|i: int| 0 <= i < ids@.len() ==> ids@[i]@ == self.registry@[i].session_id@,
    {
        let mut ids: Vec<String> = Vec::new();
        let mut i: usize = 0;
        while i < self.registry.len()
            invariant
                i <= self.registry@.len(),
                ids@.len() == i,
                forall|j: int| 0 <= j < i ==> ids@[j]@ == self.registry@[j].session_id@,
            decreases self.registry@.len() - i,
        {
            ids.push(self.registry[i].session_id.clone());
            i = i + 1;
        }
        ids
    }

    /// Apply one event to the in-memory session state and decide the
    /// persistence writes, exactly as `event_applied` states.  Executing
    /// the returned writes — and absorbing their failures — is the
    /// caller's job; a failed write never poisons the pipeline.
    #[verifier::rlimit(60)]
    pub fn process_event(&mut self, event: TrackingEvent, now: u64) -> (ops: Vec<SinkOp>)
        requires
            old(self).wf(),
        ensures
            final(self).wf(),
            final(self).queue == old(self).queue,
            final(self).closed == old(self).closed,
            final(self).idle_timeout_ms == old(self).idle_timeout_ms,
            event_applied(old(self).registry@, final(self).registry@, event, now, ops@),
    {
        let mut ops: Vec<SinkOp> = Vec::new();
        match event {
            TrackingEvent::SessionStart { session_id, tenant_id, user_id, conversation_id } => {
                ops.push(
                    SinkOp::CreateSession {
                        session_id: session_id.clone(),
                        tenant_id: tenant_id.clone(),
                        user_id: user_id.clone(),
                        conversation_id: conversation_id.clone(),
                    },
                );
                let payload: Vec<(String, PayloadValue)> = Vec::new();
                ops.push(
                    SinkOp::AppendEvent {
                        session_id,
                        event_type: "session_start".to_owned(),
                        tenant_id,
                        user_id,
                        conversation_id,
                        payload,
                    },
                );
            },
            TrackingEvent::SessionEnd { session_id, reason } => {
                let idx = find_id_index(&self.registry, session_id.as_str());
                match idx {
                    Some(k) => {
                        proof {
                            assert forall|j: int|
                                0 <= j < self.registry@.len() && self.registry@[j].session_id@
                                    == session_id@ implies j == k as int by {
                                if j < k as int {
                                    assert(self.registry@[j].session_id@
                                        != self.registry@[k as int].session_id@);
                                } else if j > k as int {
                                    assert(self.registry@[k as int].session_id@
                                        != self.registry@[j].session_id@);
                                }
                            }
                        }
                        // Removal and finalization are one logical step:
                        // the entry leaves the registry together with the
                        // decision to write its final counters.
                        let entry = self.registry.remove(k);
                        proof {
                            lemma_registry_wf_remove(old(self).registry@, k as int);
                        }
                        let avg = entry.avg_response_time();
                        ops.push(
                            SinkOp::UpdateSessionCounters {
                                session_id: session_id.clone(),
                                message_count: entry.message_count,
                                user_chars: entry.total_user_chars,
                                bot_chars: entry.total_bot_chars,
                                avg_response_time_ms: avg,
                            },
                        );
                        ops.push(SinkOp::EndSession { session_id: session_id.clone(), reason });
                        let mut payload: Vec<(String, PayloadValue)> = Vec::new();
                        payload.push(
                            ("reason".to_owned(), PayloadValue::Text(reason.as_str().to_owned())),
                        );
                        ops.push(
                            SinkOp::AppendEvent {
                                session_id,
                                event_type: "session_end".to_owned(),
                                tenant_id: entry.tenant_id.clone(),
                                user_id: entry.user_id.clone(),
                                conversation_id: entry.conversation_id.clone(),
                                payload,
                            },
                        );
                    },
                    None => {
                        // Late or duplicate end: a no-op on the registry,
                        // but the audit record is still written.
                        let mut payload: Vec<(String, PayloadValue)> = Vec::new();
                        payload.push(
                            ("reason".to_owned(), PayloadValue::Text(reason.as_str().to_owned())),
                        );
                        ops.push(
                            SinkOp::AppendEvent {
                                session_id,
                                event_type: "session_end".to_owned(),
                                tenant_id: "".to_owned(),
                                user_id: "".to_owned(),
                                conversation_id: "".to_owned(),
                                payload,
                            },
                        );
                    },
                }
            },
            TrackingEvent::MessageReceived {
                session_id,
                tenant_id,
                user_id,
                conversation_id,
                message_id,
                character_count,
                has_attachments,
            } => {
                let idx = find_key_index(
                    &self.registry,
                    tenant_id.as_str(),
                    user_id.as_str(),
                    conversation_id.as_str(),
                );
                match idx {
                    Some(k) => {
                        let ghost pre = self.registry@;
                        let entry = &mut self.registry[k];
                        let _ = entry.add_user_message(character_count, now);
                        proof {
                            lemma_registry_wf_update(
                                pre,
                                k as int,
                                self.registry@[k as int],
                            );
                        }
                    },
                    None => {},
                }
                let mut payload: Vec<(String, PayloadValue)> = Vec::new();
                payload.push(("message_id".to_owned(), PayloadValue::Text(message_id)));
                payload.push(("chars".to_owned(), PayloadValue::Count(character_count)));
                payload.push(("attachments".to_owned(), PayloadValue::Flag(has_attachments)));
                ops.push(
                    SinkOp::AppendEvent {
                        session_id,
                        event_type: "message_received".to_owned(),
                        tenant_id,
                        user_id,
                        conversation_id,
                        payload,
                    },
                );
            },
            TrackingEvent::MessageSent {
                session_id,
                tenant_id,
                user_id,
                conversation_id,
                message_id,
                character_count,
                response_time_ms,
            } => {
                let idx = find_key_index(
                    &self.registry,
                    tenant_id.as_str(),
                    user_id.as_str(),
                    conversation_id.as_str(),
                );
                match idx {
                    Some(k) => {
                        let ghost pre = self.registry@;
                        let entry = &mut self.registry[k];
                        let _ = entry.add_bot_message(character_count, response_time_ms, now);
                        proof {
                            lemma_registry_wf_update(
                                pre,
                                k as int,
                                self.registry@[k as int],
                            );
                        }
                    },
                    None => {},
                }
                let mut payload: Vec<(String, PayloadValue)> = Vec::new();
                payload.push(("message_id".to_owned(), PayloadValue::Text(message_id)));
                payload.push(("chars".to_owned(), PayloadValue::Count(character_count)));
                payload.push(
                    ("response_time_ms".to_owned(), PayloadValue::Count(response_time_ms)),
                );
                ops.push(
                    SinkOp::AppendEvent {
                        session_id,
                        event_type: "message_sent".to_owned(),
                        tenant_id,
                        user_id,
                        conversation_id,
                        payload,
                    },
                );
            },
            TrackingEvent::ApiCall {
                session_id,
                tenant_id,
                user_id,
                api_type,
                tokens,
                cost_microdollars,
            } => {
                let tok: u64 = match tokens {
                    Some(t) => t as u64,
                    None => 0,
                };
                let mut payload: Vec<(String, PayloadValue)> = Vec::new();
                payload.push(
                    ("api_type".to_owned(), PayloadValue::Text(api_type.as_str().to_owned())),
                );
                payload.push(("tokens".to_owned(), PayloadValue::Count(tok)));
                payload.push(
                    ("cost_microdollars".to_owned(), PayloadValue::Count(cost_microdollars)),
                );
                ops.push(
                    SinkOp::AppendEvent {
                        session_id: session_id.clone(),
                        event_type: "api_call".to_owned(),
                        tenant_id: tenant_id.clone(),
                        user_id,
                        conversation_id: "".to_owned(),
                        payload,
                    },
                );
                ops.push(
                    SinkOp::UpsertMetric {
                        session_id: session_id.clone(),
                        metric_name: api_type.as_str().to_owned(),
                        delta_count: 1,
                        delta_value: tok,
                    },
                );
                ops.push(
                    SinkOp::UpsertMetric {
                        session_id: session_id.clone(),
                        metric_name: "api_cost_microdollars".to_owned(),
                        delta_count: 0,
                        delta_value: cost_microdollars,
                    },
                );
                self.touch_by_id(session_id.as_str(), tenant_id.as_str(), now);
            },
            TrackingEvent::FeatureUsed { session_id, tenant_id, user_id, feature, feature_detail } => {
                let mut payload: Vec<(String, PayloadValue)> = Vec::new();
                payload.push(
                    ("feature".to_owned(), PayloadValue::Text(feature.as_str().to_owned())),
                );
                payload.push(("detail".to_owned(), PayloadValue::Text(feature_detail)));
                ops.push(
                    SinkOp::AppendEvent {
                        session_id: session_id.clone(),
                        event_type: "feature_used".to_owned(),
                        tenant_id: tenant_id.clone(),
                        user_id,
                        conversation_id: "".to_owned(),
                        payload,
                    },
                );
                ops.push(
                    SinkOp::UpsertMetric {
                        session_id: session_id.clone(),
                        metric_name: feature.as_str().to_owned(),
                        delta_count: 1,
                        delta_value: 0,
                    },
                );
                self.touch_by_id(session_id.as_str(), tenant_id.as_str(), now);
            },
        }
        ops
    }

    /// Refresh the activity of the session carrying `session_id`, if a
    /// live one belongs to `tenant_id`.  The tenant guard keeps an id
    /// quoted under one tenant from touching another tenant's session.
    fn touch_by_id(&mut self, session_id: &str, tenant_id: &str, now: u64)
        requires
            old(self).wf(),
        ensures
            final(self).wf(),
            final(self).queue == old(self).queue,
            final(self).closed == old(self).closed,
            final(self).idle_timeout_ms == old(self).idle_timeout_ms,
            touched_by_id(
                old(self).registry@,
                final(self).registry@,
                session_id@,
                tenant_id@,
                now,
            ),
    {
        let idx = find_id_index(&self.registry, session_id);
        match idx {
            Some(k) => {
                proof {
                    assert forall|j: int|
                        0 <= j < self.registry@.len() && self.registry@[j].session_id@
                            == session_id@ implies j == k as int by {
                        if j < k as int {
                            assert(self.registry@[j].session_id@
                                != self.registry@[k as int].session_id@);
                        } else if j > k as int {
                            assert(self.registry@[k as int].session_id@
                                != self.registry@[j].session_id@);
                        }
                    }
                }
                let t = tenant_id.to_owned();
                if self.registry[k].tenant_id == t {
                    let ghost pre = self.registry@;
                    let entry = &mut self.registry[k];
                    entry.touch(now);
                    proof {
                        lemma_registry_wf_update(pre, k as int, self.registry@[k as int]);
                    }
                }
            },
            None => {},
        }
    }

    /// Pop and process the oldest queued event; `None` when the channel
    /// is empty.  Draining in a loop processes events in strict FIFO
    /// arrival order.
    pub fn process_next(&mut self, now: u64) -> (r: Option<Vec<SinkOp>>)
        requires
            old(self).wf(),
        ensures
            final(self).wf(),
            final(self).closed == old(self).closed,
            final(self).idle_timeout_ms == old(self).idle_timeout_ms,
            old(self).queue@.len() == 0 ==> r is None && *final(self) == *old(self),
            old(self).queue@.len() > 0 ==> {
                &&& final(self).queue@ == old(self).queue@.drop_first()
                &&& r matches Some(ops) && event_applied(
                    old(self).registry@,
                    final(self).registry@,
                    old(self).queue@[0],
                    now,
                    ops@,
                )
            },
    {
        if self.queue.len() == 0 {
            return None;
        }
        let event = self.queue.remove(0);
        proof {
            assert(self.queue@ =~= old(self).queue@.drop_first());
        }
        let ops = self.process_event(event, now);
        Some(ops)
    }

    /// One reaper run: scan the registry and enqueue a timeout end
    /// event for every expired session.  The reaper never writes
    /// directly: removal stays with the processor, so a session that
    /// was ended explicitly in the meantime makes the synthetic event a
    /// harmless no-op.  Returns how many events the scan called for.
    pub fn scan_and_emit(&mut self, now: u64) -> (emitted: usize)
        ensures
            final(self).registry == old(self).registry,
            final(self).closed == old(self).closed,
            final(self).idle_timeout_ms == old(self).idle_timeout_ms,
            old(self).closed ==> final(self).queue@ == old(self).queue@,
            !old(self).closed ==> final(self).queue@ == old(self).queue@ + timeout_end_events(
                old(self).registry@,
                now,
                old(self).idle_timeout_ms,
            ),
            emitted == timeout_end_events(
                old(self).registry@,
                now,
                old(self).idle_timeout_ms,
            ).len(),
    {
        let mut emitted: usize = 0;
        let mut i: usize = 0;
        let timeout = self.idle_timeout_ms;
        while i < self.registry.len()
            invariant
                i <= self.registry@.len(),
                timeout == self.idle_timeout_ms,
                self.registry == old(self).registry,
                self.closed == old(self).closed,
                self.idle_timeout_ms == old(self).idle_timeout_ms,
                emitted == timeout_end_events(
                    old(self).registry@.subrange(0, i as int),
                    now,
                    timeout,
                ).len(),
                emitted <= i,
                old(self).closed ==> self.queue@ == old(self).queue@,
                !old(self).closed ==> self.queue@ == old(self).queue@ + timeout_end_events(
                    old(self).registry@.subrange(0, i as int),
                    now,
                    timeout,
                ),
            decreases self.registry@.len() - i,
        {
            let ghost prefix = old(self).registry@.subrange(0, i as int);
            let ghost step = old(self).registry@.subrange(0, i as int + 1);
            proof {
                assert(step.drop_last() =~= prefix);
                assert(step.last() == old(self).registry@[i as int]);
            }
            if self.registry[i].is_expired(now, timeout) {
                let event = TrackingEvent::SessionEnd {
                    session_id: self.registry[i].session_id.clone(),
                    reason: SessionEndReason::InactivityTimeout,
                };
                if !self.closed {
                    self.queue.push(event);
                }
                emitted = emitted + 1;
            }
            i = i + 1;
        }
        proof {
            assert(old(self).registry@.subrange(0, old(self).registry@.len() as int) =~= old(
                self,
            ).registry@);
        }
        emitted
    }

    /// Whether some live entry carries the given key (expired or not).
    pub fn contains_key(&self, tenant_id: &str, user_id: &str, conversation_id: &str) -> (r: bool)
        ensures
            r == has_key(self.registry@, tenant_id@, user_id@, conversation_id@),
    {
        let idx = find_key_index(&self.registry, tenant_id, user_id, conversation_id);
        match idx {
            Some(i) => {
                proof {
                    assert(key_matches(
                        self.registry@[i as int],
                        tenant_id@,
                        user_id@,
                        conversation_id@,
                    ));
                }
                true
            },
            None => false,
        }
    }
}

} // verus!

