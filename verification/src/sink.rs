//! Persistence-sink interface: the operations the event processor asks
//! the durable store to perform, and the records the store hands back.
//!
//! The sink itself is an external collaborator.  The processor only
//! decides *which* writes to make; executing them is the caller's job,
//! so each decision is represented as a plain value.

use crate::events::{PayloadValue, SessionEndReason};
use vstd::prelude::*;

verus! {

/// One write the event processor asks the persistence sink to perform.
/// All operations are keyed by tenant through the session they concern;
/// `UpsertMetric` is an atomic add-on-conflict, never a read-modify-write.
#[derive(Debug, Clone)]
pub enum SinkOp {
    /// Persist a new session row and a zeroed metrics row; idempotent on
    /// `session_id` at the sink.
    CreateSession {
        session_id: String,
        tenant_id: String,
        user_id: String,
        conversation_id: String,
    },
    /// Mark the session row ended with a reason code.
    EndSession { session_id: String, reason: SessionEndReason },
    /// Write a session's final counters to its row.
    UpdateSessionCounters {
        session_id: String,
        message_count: u64,
        user_chars: u64,
        bot_chars: u64,
        avg_response_time_ms: u64,
    },
    /// Append a raw event record for audit; the payload is opaque to the
    /// pipeline.
    AppendEvent {
        session_id: String,
        event_type: String,
        tenant_id: String,
        user_id: String,
        conversation_id: String,
        payload: Vec<(String, PayloadValue)>,
    },
    /// Atomically add the deltas to a named per-session metric.
    UpsertMetric {
        session_id: String,
        metric_name: String,
        delta_count: u64,
        delta_value: u64,
    },
}

/// Summary of a stored session, as the persistence sink reports it.
#[derive(Debug, Clone)]
pub struct SessionInfo {
    pub session_id: String,
    pub started_at: String,
    pub ended_at: Option<String>,
    pub message_count: i64,
    pub avg_response_time_ms: i64,
}

} // verus!
