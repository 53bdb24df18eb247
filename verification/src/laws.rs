//! Laws of the tracking pipeline, proved against the transition
//! predicates that the pipeline's contracts are stated in.

use crate::events::{SessionEndReason, TrackingEvent};
use crate::session::SessionState;
use crate::sink::SinkOp;
use crate::tracker::{
    bot_message_applied, event_applied, has_key, has_live_key, is_append_op, is_counters_op,
    is_end_event, is_end_op, key_matches, registry_wf, resolve_applied, same_key, spec_has_id,
    timeout_end_events, touched, user_message_applied, InteractionTracker,
};
use vstd::prelude::*;

verus! {

/// At any instant, a well-formed registry holds at most one entry —
/// and so at most one live session id — for any one session key.
pub proof fn lemma_unique_live_session(
    entries: Seq<SessionState>,
    t: Seq<char>,
    u: Seq<char>,
    c: Seq<char>,
)
    requires
        registry_wf(entries),
    ensures
        forall|i: int, j: int|
            0 <= i < entries.len() && 0 <= j < entries.len() && key_matches(entries[i], t, u, c)
                && key_matches(entries[j], t, u, c) ==> i == j,
{
    assert forall|i: int, j: int|
        0 <= i < entries.len() && 0 <= j < entries.len() && key_matches(entries[i], t, u, c)
            && key_matches(entries[j], t, u, c) implies i == j by {
        if i < j {
            assert(!same_key(entries[i], entries[j]));
        } else if j < i {
            assert(!same_key(entries[j], entries[i]));
        }
    }
}

/// A session-end event is idempotent: once an end for a session id has
/// been processed, processing the same end again neither changes the
/// registry nor decides another finalization write — only the audit
/// record is still appended.
pub proof fn lemma_session_end_idempotent(
    pre: Seq<SessionState>,
    mid: Seq<SessionState>,
    post: Seq<SessionState>,
    ev: TrackingEvent,
    sid: Seq<char>,
    reason: SessionEndReason,
    now1: u64,
    now2: u64,
    ops1: Seq<SinkOp>,
    ops2: Seq<SinkOp>,
)
    requires
        registry_wf(pre),
        is_end_event(ev, sid, reason),
        event_applied(pre, mid, ev, now1, ops1),
        event_applied(mid, post, ev, now2, ops2),
    ensures
        post == mid,
        ops2.len() == 1,
        is_append_op(ops2[0], sid, "session_end"@, ""@, ""@, ""@),
{
    if spec_has_id(pre, sid) {
        let k = choose|k: int|
            #![auto]
            0 <= k < pre.len() && pre[k].session_id@ == sid && mid == pre.remove(k) && ops1.len()
                == 3 && is_counters_op(ops1[0], pre[k]) && is_end_op(ops1[1], sid, reason)
                && is_append_op(
                ops1[2],
                sid,
                "session_end"@,
                pre[k].tenant_id@,
                pre[k].user_id@,
                pre[k].conversation_id@,
            );
        assert(mid == pre.remove(k));
        assert forall|m: int| 0 <= m < mid.len() implies mid[m].session_id@ != sid by {
            let m0 = if m < k {
                m
            } else {
                m + 1
            };
            assert(mid[m] == pre[m0]);
            if m0 < k {
                assert(pre[m0].session_id@ != pre[k].session_id@);
            } else {
                assert(pre[k].session_id@ != pre[m0].session_id@);
            }
        }
        assert(!spec_has_id(mid, sid));
    } else {
        assert(mid == pre);
        assert(!spec_has_id(mid, sid));
    }
}

/// Every expired session has a timeout end event in the reaper's scan
/// output.
pub proof fn lemma_timeout_events_contains(
    entries: Seq<SessionState>,
    now: u64,
    idle_timeout_ms: u64,
    i: int,
)
    requires
        0 <= i < entries.len(),
        entries[i].spec_expired(now, idle_timeout_ms),
    ensures
        exists|j: int|
            #![auto]
            0 <= j < timeout_end_events(entries, now, idle_timeout_ms).len() && is_end_event(
                timeout_end_events(entries, now, idle_timeout_ms)[j],
                entries[i].session_id@,
                SessionEndReason::InactivityTimeout,
            ),
    decreases entries.len(),
{
    let evs = timeout_end_events(entries, now, idle_timeout_ms);
    let init = timeout_end_events(entries.drop_last(), now, idle_timeout_ms);
    if i == entries.len() - 1 {
        assert(evs[evs.len() - 1] == TrackingEvent::SessionEnd {
            session_id: entries.last().session_id,
            reason: SessionEndReason::InactivityTimeout,
        });
        assert(is_end_event(
            evs[evs.len() - 1],
            entries[i].session_id@,
            SessionEndReason::InactivityTimeout,
        ));
    } else {
        assert(entries.drop_last()[i] == entries[i]);
        lemma_timeout_events_contains(entries.drop_last(), now, idle_timeout_ms, i);
        let j = choose|j: int|
            #![auto]
            0 <= j < init.len() && is_end_event(
                init[j],
                entries.drop_last()[i].session_id@,
                SessionEndReason::InactivityTimeout,
            );
        assert(evs[j] == init[j]);
        assert(is_end_event(evs[j], entries[i].session_id@, SessionEndReason::InactivityTimeout));
    }
}

/// The event ends a session that really was expired at `now` in this
/// registry.
pub open spec fn sourced_event(
    entries: Seq<SessionState>,
    ev: TrackingEvent,
    now: u64,
    idle_timeout_ms: u64,
) -> bool {
    exists|m: int|
        #![trigger entries[m]]
        0 <= m < entries.len() && entries[m].spec_expired(now, idle_timeout_ms) && is_end_event(
            ev,
            entries[m].session_id@,
            SessionEndReason::InactivityTimeout,
        )
}

/// Every event in the reaper's scan output names a session that really
/// was expired at the scan instant.
pub proof fn lemma_timeout_events_sourced(
    entries: Seq<SessionState>,
    now: u64,
    idle_timeout_ms: u64,
)
    ensures
        forall|j: int|
            #![auto]
            0 <= j < timeout_end_events(entries, now, idle_timeout_ms).len() ==> sourced_event(
                entries,
                timeout_end_events(entries, now, idle_timeout_ms)[j],
                now,
                idle_timeout_ms,
            ),
    decreases entries.len(),
{
    let evs = timeout_end_events(entries, now, idle_timeout_ms);
    if entries.len() == 0 {
    } else {
        let init = timeout_end_events(entries.drop_last(), now, idle_timeout_ms);
        lemma_timeout_events_sourced(entries.drop_last(), now, idle_timeout_ms);
        assert forall|j: int| 0 <= j < evs.len() implies sourced_event(
            entries,
            evs[j],
            now,
            idle_timeout_ms,
        ) by {
            if j < init.len() {
                assert(sourced_event(entries.drop_last(), init[j], now, idle_timeout_ms));
                let m = choose|m: int|
                    #![trigger entries.drop_last()[m]]
                    0 <= m < entries.drop_last().len() && entries.drop_last()[m].spec_expired(
                        now,
                        idle_timeout_ms,
                    ) && is_end_event(
                        init[j],
                        entries.drop_last()[m].session_id@,
                        SessionEndReason::InactivityTimeout,
                    );
                assert(entries.drop_last()[m] == entries[m]);
                assert(evs[j] == init[j]);
                assert(is_end_event(
                    evs[j],
                    entries[m].session_id@,
                    SessionEndReason::InactivityTimeout,
                ));
            } else {
                let m = entries.len() - 1;
                assert(entries.last().spec_expired(now, idle_timeout_ms));
                assert(evs[j] == TrackingEvent::SessionEnd {
                    session_id: entries.last().session_id,
                    reason: SessionEndReason::InactivityTimeout,
                });
                assert(is_end_event(
                    evs[j],
                    entries[m].session_id@,
                    SessionEndReason::InactivityTimeout,
                ));
            }
        }
    }
}

/// Reaping is sound: a session expired at the scan instant has a
/// timeout end event in the scan output, and processing that event
/// removes the session from the registry and finalizes it.
pub proof fn lemma_reap_sound(
    entries: Seq<SessionState>,
    i: int,
    now: u64,
    idle_timeout_ms: u64,
    post: Seq<SessionState>,
    ev: TrackingEvent,
    process_now: u64,
    ops: Seq<SinkOp>,
)
    requires
        registry_wf(entries),
        0 <= i < entries.len(),
        entries[i].spec_expired(now, idle_timeout_ms),
        is_end_event(ev, entries[i].session_id@, SessionEndReason::InactivityTimeout),
        event_applied(entries, post, ev, process_now, ops),
    ensures
        exists|j: int|
            #![auto]
            0 <= j < timeout_end_events(entries, now, idle_timeout_ms).len() && is_end_event(
                timeout_end_events(entries, now, idle_timeout_ms)[j],
                entries[i].session_id@,
                SessionEndReason::InactivityTimeout,
            ),
        !spec_has_id(post, entries[i].session_id@),
        ops.len() == 3,
{
    lemma_timeout_events_contains(entries, now, idle_timeout_ms, i);
    let sid = entries[i].session_id@;
    assert(spec_has_id(entries, sid));
    let k = choose|k: int|
        #![auto]
        0 <= k < entries.len() && entries[k].session_id@ == sid && post == entries.remove(k)
            && ops.len() == 3 && is_counters_op(ops[0], entries[k]) && is_end_op(
            ops[1],
            sid,
            SessionEndReason::InactivityTimeout,
        ) && is_append_op(
            ops[2],
            sid,
            "session_end"@,
            entries[k].tenant_id@,
            entries[k].user_id@,
            entries[k].conversation_id@,
        );
    assert forall|m: int| 0 <= m < post.len() implies post[m].session_id@ != sid by {
        let m0 = if m < k {
            m
        } else {
            m + 1
        };
        assert(post[m] == entries[m0]);
        if m0 < k {
            assert(entries[m0].session_id@ != entries[k].session_id@);
        } else {
            assert(entries[k].session_id@ != entries[m0].session_id@);
        }
    }
}

/// Reaping is not premature: the scan emits no end event for a session
/// with recent activity.
pub proof fn lemma_reap_not_premature(
    entries: Seq<SessionState>,
    i: int,
    now: u64,
    idle_timeout_ms: u64,
)
    requires
        registry_wf(entries),
        0 <= i < entries.len(),
        !entries[i].spec_expired(now, idle_timeout_ms),
    ensures
        forall|j: int|
            #![auto]
            0 <= j < timeout_end_events(entries, now, idle_timeout_ms).len() ==> !is_end_event(
                timeout_end_events(entries, now, idle_timeout_ms)[j],
                entries[i].session_id@,
                SessionEndReason::InactivityTimeout,
            ),
{
    let evs = timeout_end_events(entries, now, idle_timeout_ms);
    lemma_timeout_events_sourced(entries, now, idle_timeout_ms);
    assert forall|j: int| 0 <= j < evs.len() implies !is_end_event(
        evs[j],
        entries[i].session_id@,
        SessionEndReason::InactivityTimeout,
    ) by {
        if is_end_event(evs[j], entries[i].session_id@, SessionEndReason::InactivityTimeout) {
            assert(sourced_event(entries, evs[j], now, idle_timeout_ms));
            let m = choose|m: int|
                #![trigger entries[m]]
                0 <= m < entries.len() && entries[m].spec_expired(now, idle_timeout_ms)
                    && is_end_event(
                    evs[j],
                    entries[m].session_id@,
                    SessionEndReason::InactivityTimeout,
                );
            assert(entries[m].session_id@ == entries[i].session_id@);
            if m < i {
                assert(entries[m].session_id@ != entries[i].session_id@);
            } else if i < m {
                assert(entries[i].session_id@ != entries[m].session_id@);
            }
            assert(m == i);
            assert(false);
        }
    }
}

/// Counter balance: in every well-formed pipeline state, every
/// session's message count splits exactly into its user and bot
/// message counts.
pub proof fn lemma_counter_balance(entries: Seq<SessionState>)
    requires
        registry_wf(entries),
    ensures
        forall|i: int|
            #![auto]
            0 <= i < entries.len() ==> entries[i].message_count == entries[i].user_message_count
                + entries[i].bot_message_count,
{
    assert forall|i: int| 0 <= i < entries.len() implies entries[i].message_count
        == entries[i].user_message_count + entries[i].bot_message_count by {
        assert(entries[i].wf());
    }
}

/// The tenant an event is scoped to, if it names one.  Session-end
/// events are scoped by session id alone.
pub open spec fn event_tenant(ev: TrackingEvent) -> Option<Seq<char>> {
    match ev {
        TrackingEvent::SessionStart { tenant_id, .. } => Some(tenant_id@),
        TrackingEvent::SessionEnd { .. } => None,
        TrackingEvent::MessageReceived { tenant_id, .. } => Some(tenant_id@),
        TrackingEvent::MessageSent { tenant_id, .. } => Some(tenant_id@),
        TrackingEvent::ApiCall { tenant_id, .. } => Some(tenant_id@),
        TrackingEvent::FeatureUsed { tenant_id, .. } => Some(tenant_id@),
    }
}

/// Tenant isolation for event processing: an event scoped to one
/// tenant never mutates a session belonging to another tenant, even
/// when user and conversation ids collide across tenants.
pub proof fn lemma_event_tenant_isolation(
    pre: Seq<SessionState>,
    post: Seq<SessionState>,
    ev: TrackingEvent,
    now: u64,
    ops: Seq<SinkOp>,
    a: Seq<char>,
    b: Seq<char>,
)
    requires
        registry_wf(pre),
        event_applied(pre, post, ev, now, ops),
        event_tenant(ev) == Some(a),
        b != a,
    ensures
        forall|j: int|
            #![auto]
            0 <= j < pre.len() && pre[j].tenant_id@ == b ==> post.contains(pre[j]),
{
    assert forall|j: int| 0 <= j < pre.len() && pre[j].tenant_id@ == b implies post.contains(
        pre[j],
    ) by {
        match ev {
            TrackingEvent::SessionStart { .. } => {
                assert(post[j] == pre[j]);
            },
            TrackingEvent::SessionEnd { .. } => {
                assert(false);
            },
            TrackingEvent::MessageReceived { tenant_id, user_id, conversation_id, character_count, .. } => {
                if has_key(pre, tenant_id@, user_id@, conversation_id@) {
                    let k = choose|k: int|
                        #![auto]
                        0 <= k < pre.len() && key_matches(
                            pre[k],
                            tenant_id@,
                            user_id@,
                            conversation_id@,
                        ) && post.len() == pre.len() && user_message_applied(
                            pre[k],
                            post[k],
                            character_count,
                            now,
                        ) && (forall|m: int| 0 <= m < pre.len() && m != k ==> post[m] == pre[m]);
                    assert(pre[k].tenant_id@ == a);
                    assert(j != k);
                    assert(post[j] == pre[j]);
                } else {
                    assert(post[j] == pre[j]);
                }
            },
            TrackingEvent::MessageSent {
                tenant_id,
                user_id,
                conversation_id,
                character_count,
                response_time_ms,
                ..
            } => {
                if has_key(pre, tenant_id@, user_id@, conversation_id@) {
                    let k = choose|k: int|
                        #![auto]
                        0 <= k < pre.len() && key_matches(
                            pre[k],
                            tenant_id@,
                            user_id@,
                            conversation_id@,
                        ) && post.len() == pre.len() && bot_message_applied(
                            pre[k],
                            post[k],
                            character_count,
                            response_time_ms,
                            now,
                        ) && (forall|m: int| 0 <= m < pre.len() && m != k ==> post[m] == pre[m]);
                    assert(pre[k].tenant_id@ == a);
                    assert(j != k);
                    assert(post[j] == pre[j]);
                } else {
                    assert(post[j] == pre[j]);
                }
            },
            TrackingEvent::ApiCall { session_id, tenant_id, .. } => {
                if exists|k: int|
                    0 <= k < pre.len() && pre[k].session_id@ == session_id@ && pre[k].tenant_id@
                        == tenant_id@ {
                    let k = choose|k: int|
                        #![auto]
                        0 <= k < pre.len() && pre[k].session_id@ == session_id@ && pre[k].tenant_id@
                            == tenant_id@ && post.len() == pre.len() && touched(
                            pre[k],
                            post[k],
                            now,
                        ) && (forall|m: int| 0 <= m < pre.len() && m != k ==> post[m] == pre[m]);
                    assert(pre[k].tenant_id@ == a);
                    assert(j != k);
                    assert(post[j] == pre[j]);
                } else {
                    assert(post[j] == pre[j]);
                }
            },
            TrackingEvent::FeatureUsed { session_id, tenant_id, .. } => {
                if exists|k: int|
                    0 <= k < pre.len() && pre[k].session_id@ == session_id@ && pre[k].tenant_id@
                        == tenant_id@ {
                    let k = choose|k: int|
                        #![auto]
                        0 <= k < pre.len() && pre[k].session_id@ == session_id@ && pre[k].tenant_id@
                            == tenant_id@ && post.len() == pre.len() && touched(
                            pre[k],
                            post[k],
                            now,
                        ) && (forall|m: int| 0 <= m < pre.len() && m != k ==> post[m] == pre[m]);
                    assert(pre[k].tenant_id@ == a);
                    assert(j != k);
                    assert(post[j] == pre[j]);
                } else {
                    assert(post[j] == pre[j]);
                }
            },
        }
        assert(post.len() == pre.len());
        assert(post.contains(pre[j]));
    }
}

/// Tenant isolation for resolution: resolving a key of one tenant
/// never mutates an entry belonging to another tenant.
pub proof fn lemma_resolve_tenant_isolation(
    pre: InteractionTracker,
    post: InteractionTracker,
    t: Seq<char>,
    u: Seq<char>,
    c: Seq<char>,
    now: u64,
    fresh: Seq<char>,
    sid: Seq<char>,
    b: Seq<char>,
)
    requires
        registry_wf(pre.registry@),
        resolve_applied(pre, post, t, u, c, now, fresh, sid),
        b != t,
    ensures
        forall|j: int|
            #![auto]
            0 <= j < pre.registry@.len() && pre.registry@[j].tenant_id@ == b
                ==> post.registry@.contains(pre.registry@[j]),
{
    let prer = pre.registry@;
    let postr = post.registry@;
    assert forall|j: int| 0 <= j < prer.len() && prer[j].tenant_id@ == b implies postr.contains(
        prer[j],
    ) by {
        if has_live_key(prer, t, u, c, now, pre.idle_timeout_ms) {
            assert(postr[j] == prer[j]);
        } else if has_key(prer, t, u, c) {
            let k = choose|k: int|
                #![auto]
                0 <= k < prer.len() && key_matches(prer[k], t, u, c) && postr.len() == prer.len()
                    && crate::tracker::is_fresh_entry(postr[k], fresh, t, u, c, now) && (forall|
                    m: int,
                |
                    0 <= m < prer.len() && m != k ==> postr[m] == prer[m]);
            assert(prer[k].tenant_id@ == t);
            assert(j != k);
            assert(postr[j] == prer[j]);
        } else {
            assert(postr.subrange(0, prer.len() as int) == prer);
            assert(postr.subrange(0, prer.len() as int)[j] == postr[j]);
            assert(postr[j] == prer[j]);
        }
        assert(postr.contains(prer[j]));
    }
}

/// In a well-formed registry a session id picks out one entry.
pub proof fn lemma_id_unique(entries: Seq<SessionState>, i: int, j: int)
    requires
        registry_wf(entries),
        0 <= i < entries.len(),
        0 <= j < entries.len(),
        entries[i].session_id@ == entries[j].session_id@,
    ensures
        i == j,
{
    if i < j {
        assert(entries[i].session_id@ != entries[j].session_id@);
    } else if j < i {
        assert(entries[j].session_id@ != entries[i].session_id@);
    }
}

/// Counters only grow: a session that survives the processing of an
/// event keeps its identity, and none of its counters decreases.
pub proof fn lemma_counters_monotonic(
    pre: Seq<SessionState>,
    post: Seq<SessionState>,
    ev: TrackingEvent,
    now: u64,
    ops: Seq<SinkOp>,
)
    requires
        registry_wf(pre),
        event_applied(pre, post, ev, now, ops),
    ensures
        forall|i: int, j: int|
            #![trigger pre[i], post[j]]
            0 <= i < pre.len() && 0 <= j < post.len() && pre[i].session_id@
                == post[j].session_id@ ==> post[j].message_count >= pre[i].message_count
                && post[j].user_message_count >= pre[i].user_message_count
                && post[j].bot_message_count >= pre[i].bot_message_count
                && post[j].total_user_chars >= pre[i].total_user_chars
                && post[j].total_bot_chars >= pre[i].total_bot_chars,
{
    assert forall|i: int, j: int|
        0 <= i < pre.len() && 0 <= j < post.len() && pre[i].session_id@
            == post[j].session_id@ implies post[j].message_count >= pre[i].message_count
        && post[j].user_message_count >= pre[i].user_message_count
        && post[j].bot_message_count >= pre[i].bot_message_count && post[j].total_user_chars
        >= pre[i].total_user_chars && post[j].total_bot_chars >= pre[i].total_bot_chars by {
        match ev {
            TrackingEvent::SessionStart { .. } => {
                lemma_id_unique(pre, i, j);
                assert(post[j] == pre[i]);
            },
            TrackingEvent::SessionEnd { session_id, .. } => {
                if spec_has_id(pre, session_id@) {
                    let k = choose|k: int|
                        #![auto]
                        0 <= k < pre.len() && pre[k].session_id@ == session_id@ && post
                            == pre.remove(k);
                    let m0 = if j < k {
                        j
                    } else {
                        j + 1
                    };
                    assert(post[j] == pre[m0]);
                    lemma_id_unique(pre, i, m0);
                    assert(post[j] == pre[i]);
                } else {
                    lemma_id_unique(pre, i, j);
                    assert(post[j] == pre[i]);
                }
            },
            TrackingEvent::MessageReceived { tenant_id, user_id, conversation_id, character_count, .. } => {
                if has_key(pre, tenant_id@, user_id@, conversation_id@) {
                    let k = choose|k: int|
                        #![auto]
                        0 <= k < pre.len() && key_matches(
                            pre[k],
                            tenant_id@,
                            user_id@,
                            conversation_id@,
                        ) && post.len() == pre.len() && user_message_applied(
                            pre[k],
                            post[k],
                            character_count,
                            now,
                        ) && (forall|m: int| 0 <= m < pre.len() && m != k ==> post[m] == pre[m]);
                    if j == k {
                        assert(post[k].session_id == pre[k].session_id);
                        lemma_id_unique(pre, i, k);
                    } else {
                        assert(post[j] == pre[j]);
                        lemma_id_unique(pre, i, j);
                        assert(post[j] == pre[i]);
                    }
                } else {
                    lemma_id_unique(pre, i, j);
                    assert(post[j] == pre[i]);
                }
            },
            TrackingEvent::MessageSent {
                tenant_id,
                user_id,
                conversation_id,
                character_count,
                response_time_ms,
                ..
            } => {
                if has_key(pre, tenant_id@, user_id@, conversation_id@) {
                    let k = choose|k: int|
                        #![auto]
                        0 <= k < pre.len() && key_matches(
                            pre[k],
                            tenant_id@,
                            user_id@,
                            conversation_id@,
                        ) && post.len() == pre.len() && bot_message_applied(
                            pre[k],
                            post[k],
                            character_count,
                            response_time_ms,
                            now,
                        ) && (forall|m: int| 0 <= m < pre.len() && m != k ==> post[m] == pre[m]);
                    if j == k {
                        assert(post[k].session_id == pre[k].session_id);
                        lemma_id_unique(pre, i, k);
                    } else {
                        assert(post[j] == pre[j]);
                        lemma_id_unique(pre, i, j);
                        assert(post[j] == pre[i]);
                    }
                } else {
                    lemma_id_unique(pre, i, j);
                    assert(post[j] == pre[i]);
                }
            },
            TrackingEvent::ApiCall { session_id, tenant_id, .. } => {
                if exists|k: int|
                    0 <= k < pre.len() && pre[k].session_id@ == session_id@ && pre[k].tenant_id@
                        == tenant_id@ {
                    let k = choose|k: int|
                        #![auto]
                        0 <= k < pre.len() && pre[k].session_id@ == session_id@ && pre[k].tenant_id@
                            == tenant_id@ && post.len() == pre.len() && touched(
                            pre[k],
                            post[k],
                            now,
                        ) && (forall|m: int| 0 <= m < pre.len() && m != k ==> post[m] == pre[m]);
                    if j == k {
                        assert(post[k].session_id == pre[k].session_id);
                        lemma_id_unique(pre, i, k);
                    } else {
                        assert(post[j] == pre[j]);
                        lemma_id_unique(pre, i, j);
                        assert(post[j] == pre[i]);
                    }
                } else {
                    lemma_id_unique(pre, i, j);
                    assert(post[j] == pre[i]);
                }
            },
            TrackingEvent::FeatureUsed { session_id, tenant_id, .. } => {
                if exists|k: int|
                    0 <= k < pre.len() && pre[k].session_id@ == session_id@ && pre[k].tenant_id@
                        == tenant_id@ {
                    let k = choose|k: int|
                        #![auto]
                        0 <= k < pre.len() && pre[k].session_id@ == session_id@ && pre[k].tenant_id@
                            == tenant_id@ && post.len() == pre.len() && touched(
                            pre[k],
                            post[k],
                            now,
                        ) && (forall|m: int| 0 <= m < pre.len() && m != k ==> post[m] == pre[m]);
                    if j == k {
                        assert(post[k].session_id == pre[k].session_id);
                        lemma_id_unique(pre, i, k);
                    } else {
                        assert(post[j] == pre[j]);
                        lemma_id_unique(pre, i, j);
                        assert(post[j] == pre[i]);
                    }
                } else {
                    lemma_id_unique(pre, i, j);
                    assert(post[j] == pre[i]);
                }
            },
        }
    }
}

/// Totals that a named per-session metric accumulates over a sequence
/// of sink writes: summed counts and summed values.
pub open spec fn metric_total(ops: Seq<SinkOp>, sid: Seq<char>, name: Seq<char>) -> (int, int)
    decreases ops.len(),
{
    if ops.len() == 0 {
        (0, 0)
    } else {
        let rest = metric_total(ops.drop_first(), sid, name);
        match ops[0] {
            SinkOp::UpsertMetric { session_id, metric_name, delta_count, delta_value } => {
                if session_id@ == sid && metric_name@ == name {
                    (rest.0 + delta_count, rest.1 + delta_value)
                } else {
                    rest
                }
            },
            _ => rest,
        }
    }
}

/// Concatenating write batches adds their metric totals.
pub proof fn lemma_metric_total_concat(
    a: Seq<SinkOp>,
    b: Seq<SinkOp>,
    sid: Seq<char>,
    name: Seq<char>,
)
    ensures
        metric_total(a + b, sid, name).0 == metric_total(a, sid, name).0 + metric_total(
            b,
            sid,
            name,
        ).0,
        metric_total(a + b, sid, name).1 == metric_total(a, sid, name).1 + metric_total(
            b,
            sid,
            name,
        ).1,
    decreases a.len(),
{
    if a.len() == 0 {
        assert(a + b =~= b);
    } else {
        assert((a + b).drop_first() =~= a.drop_first() + b);
        assert((a + b)[0] == a[0]);
        lemma_metric_total_concat(a.drop_first(), b, sid, name);
    }
}

/// Atomic metric upserts are order-independent: two batches of decided
/// writes put the same totals on a metric whichever order the
/// persistence sink applies them in.
pub proof fn lemma_upsert_order_independent(
    a: Seq<SinkOp>,
    b: Seq<SinkOp>,
    sid: Seq<char>,
    name: Seq<char>,
)
    ensures
        metric_total(a + b, sid, name) == metric_total(b + a, sid, name),
{
    lemma_metric_total_concat(a, b, sid, name);
    lemma_metric_total_concat(b, a, sid, name);
}

} // verus!
