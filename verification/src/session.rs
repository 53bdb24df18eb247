//! Per-session in-memory state and its counters.

use vstd::prelude::*;

verus! {

/// Sum of a sequence of response latencies.
pub open spec fn sum(s: Seq<u64>) -> int
    decreases s.len(),
{
    if s.len() == 0 {
        0
    } else {
        sum(s.drop_last()) + s.last()
    }
}

pub proof fn lemma_sum_push(s: Seq<u64>, x: u64)
    ensures
        sum(s.push(x)) == sum(s) + x,
{
    assert(s.push(x).drop_last() =~= s);
    assert(s.push(x).last() == x);
}

/// Live state of one tracked session.  Owned exclusively by the event
/// processor once created; producers only read the session id through
/// the registry.
#[derive(Debug, Clone)]
pub struct SessionState {
    /// Opaque unique identifier, fixed at creation and never reused.
    pub session_id: String,
    pub tenant_id: String,
    pub user_id: String,
    pub conversation_id: String,
    /// Observation-clock instant of creation, in milliseconds.
    pub created_at: u64,
    /// Observation-clock instant of the most recent activity.
    pub last_activity_at: u64,
    pub message_count: u64,
    pub user_message_count: u64,
    pub bot_message_count: u64,
    pub total_user_chars: u64,
    pub total_bot_chars: u64,
    /// Observed response latencies, in arrival order.
    pub response_times: Vec<u64>,
    /// Running sum of `response_times`, kept for constant-time averaging.
    pub response_time_total: u64,
}

impl SessionState {
    /// Internal consistency: the message counter splits exactly into the
    /// user and bot counters, and the latency bookkeeping matches the
    /// recorded latencies.
    pub open spec fn wf(self) -> bool {
        &&& self.message_count == self.user_message_count + self.bot_message_count
        &&& self.bot_message_count == self.response_times@.len()
        &&& self.response_time_total == sum(self.response_times@)
    }

    /// Whether one more user message of `chars` characters can be counted
    /// without any counter leaving its machine range.
    pub open spec fn user_message_fits(self, chars: u64) -> bool {
        &&& self.message_count < u64::MAX
        &&& self.user_message_count < u64::MAX
        &&& self.total_user_chars + chars <= u64::MAX
    }

    /// Whether one more bot message can be counted without any counter
    /// leaving its machine range.
    pub open spec fn bot_message_fits(self, chars: u64, response_time_ms: u64) -> bool {
        &&& self.message_count < u64::MAX
        &&& self.bot_message_count < u64::MAX
        &&& self.total_bot_chars + chars <= u64::MAX
        &&& self.response_time_total + response_time_ms <= u64::MAX
        &&& self.response_times@.len() < usize::MAX
    }

    /// A session is expired at `now` when the time since its last
    /// activity exceeds the idle timeout.
    pub open spec fn spec_expired(self, now: u64, idle_timeout_ms: u64) -> bool {
        now > self.last_activity_at && now - self.last_activity_at > idle_timeout_ms
    }

    /// Mean recorded response latency; zero when none was recorded.
    pub open spec fn spec_avg_response_time(self) -> int {
        if self.bot_message_count == 0 {
            0
        } else {
            self.response_time_total as int / self.bot_message_count as int
        }
    }

    pub fn new(
        session_id: String,
        tenant_id: String,
        user_id: String,
        conversation_id: String,
        now: u64,
    ) -> (s: SessionState)
        ensures
            s.wf(),
            s.session_id == session_id,
            s.tenant_id == tenant_id,
            s.user_id == user_id,
            s.conversation_id == conversation_id,
            s.created_at == now,
            s.last_activity_at == now,
            s.message_count == 0,
            s.user_message_count == 0,
            s.bot_message_count == 0,
            s.total_user_chars == 0,
            s.total_bot_chars == 0,
            s.response_times@ == Seq::<u64>::empty(),
    {
        let times: Vec<u64> = Vec::new();
        assert(times@ =~= Seq::<u64>::empty());
        SessionState {
            session_id,
            tenant_id,
            user_id,
            conversation_id,
            created_at: now,
            last_activity_at: now,
            message_count: 0,
            user_message_count: 0,
            bot_message_count: 0,
            total_user_chars: 0,
            total_bot_chars: 0,
            response_times: times,
            response_time_total: 0,
        }
    }

    /// Refresh the last-activity instant.
    pub fn touch(&mut self, now: u64)
        ensures
            *final(self) == (SessionState { last_activity_at: now, ..*old(self) }),
    {
        self.last_activity_at = now;
    }

    /// Count one received user message.  When a counter would leave its
    /// machine range the message is not counted, but the session still
    /// registers the activity; `recorded` reports which happened.
    pub fn add_user_message(&mut self, chars: u64, now: u64) -> (recorded: bool)
        ensures
            recorded == old(self).user_message_fits(chars),
            recorded ==> *final(self) == (SessionState {
                message_count: (old(self).message_count + 1) as u64,
                user_message_count: (old(self).user_message_count + 1) as u64,
                total_user_chars: (old(self).total_user_chars + chars) as u64,
                last_activity_at: now,
                ..*old(self)
            }),
            !recorded ==> *final(self) == (SessionState { last_activity_at: now, ..*old(self) }),
            old(self).wf() ==> final(self).wf(),
    {
        if self.message_count < u64::MAX && self.user_message_count < u64::MAX && chars <= u64::MAX
            - self.total_user_chars {
            self.message_count = self.message_count + 1;
            self.user_message_count = self.user_message_count + 1;
            self.total_user_chars = self.total_user_chars + chars;
            self.touch(now);
            true
        } else {
            self.touch(now);
            false
        }
    }

    /// Count one sent bot message together with its response latency.
    /// As with user messages, an increment that would overflow is dropped
    /// while the activity itself is still registered.
    pub fn add_bot_message(&mut self, chars: u64, response_time_ms: u64, now: u64) -> (recorded:
        bool)
        ensures
            recorded == old(self).bot_message_fits(chars, response_time_ms),
            recorded ==> *final(self) == (SessionState {
                message_count: (old(self).message_count + 1) as u64,
                bot_message_count: (old(self).bot_message_count + 1) as u64,
                total_bot_chars: (old(self).total_bot_chars + chars) as u64,
                response_times: final(self).response_times,
                response_time_total: (old(self).response_time_total + response_time_ms) as u64,
                last_activity_at: now,
                ..*old(self)
            }),
            recorded ==> final(self).response_times@ == old(self).response_times@.push(
                response_time_ms,
            ),
            !recorded ==> *final(self) == (SessionState { last_activity_at: now, ..*old(self) }),
            old(self).wf() ==> final(self).wf(),
    {
        if self.message_count < u64::MAX && self.bot_message_count < u64::MAX && chars <= u64::MAX
            - self.total_bot_chars && response_time_ms <= u64::MAX - self.response_time_total
            && self.response_times.len() < usize::MAX {
            self.message_count = self.message_count + 1;
            self.bot_message_count = self.bot_message_count + 1;
            self.total_bot_chars = self.total_bot_chars + chars;
            proof {
                lemma_sum_push(self.response_times@, response_time_ms);
            }
            self.response_times.push(response_time_ms);
            self.response_time_total = self.response_time_total + response_time_ms;
            self.touch(now);
            true
        } else {
            self.touch(now);
            false
        }
    }

    /// Mean response latency over the session so far, zero if no bot
    /// message was recorded.
    pub fn avg_response_time(&self) -> (r: u64)
        requires
            self.wf(),
        ensures
            r == self.spec_avg_response_time(),
    {
        if self.bot_message_count == 0 {
            0
        } else {
            self.response_time_total / self.bot_message_count
        }
    }

    /// Expiry check against the idle-timeout policy.
    pub fn is_expired(&self, now: u64, idle_timeout_ms: u64) -> (r: bool)
        ensures
            r == self.spec_expired(now, idle_timeout_ms),
    {
        now > self.last_activity_at && now - self.last_activity_at > idle_timeout_ms
    }
}

} // verus!
