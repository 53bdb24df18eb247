//! Event envelopes: the closed set of observations the pipeline can make.

use vstd::prelude::*;

verus! {

/// Types of API calls tracked.
#[derive(Debug, Clone, Copy, PartialEq, Eq, Structural)]
pub enum ApiType {
    Chat,
    Whisper,
    DallE,
}

impl ApiType {
    /// The metric name under which calls of this type are accounted.
    pub fn as_str(&self) -> (r: &str)
        ensures
            self is Chat ==> r@ == "chat"@,
            self is Whisper ==> r@ == "whisper"@,
            self is DallE ==> r@ == "dalle"@,
    {
        match self {
            ApiType::Chat => "chat",
            ApiType::Whisper => "whisper",
            ApiType::DallE => "dalle",
        }
    }
}

/// Types of features used inside a conversation.
#[derive(Debug, Clone, Copy, PartialEq, Eq, Structural)]
pub enum FeatureType {
    AudioTranscription,
    SlashCommand,
}

impl FeatureType {
    /// The metric name under which uses of this feature are accounted.
    pub fn as_str(&self) -> (r: &str)
        ensures
            self is AudioTranscription ==> r@ == "audio"@,
            self is SlashCommand ==> r@ == "slash_command"@,
    {
        match self {
            FeatureType::AudioTranscription => "audio",
            FeatureType::SlashCommand => "slash_command",
        }
    }
}

/// Reasons for a session ending.
#[derive(Debug, Clone, Copy, PartialEq, Eq, Structural)]
pub enum SessionEndReason {
    InactivityTimeout,
    UserLeft,
    BotRestart,
}

impl SessionEndReason {
    /// The reason code written to the persistence sink.
    pub fn as_str(&self) -> (r: &str)
        ensures
            self is InactivityTimeout ==> r@ == "timeout"@,
            self is UserLeft ==> r@ == "user_left"@,
            self is BotRestart ==> r@ == "bot_restart"@,
    {
        match self {
            SessionEndReason::InactivityTimeout => "timeout",
            SessionEndReason::UserLeft => "user_left",
            SessionEndReason::BotRestart => "bot_restart",
        }
    }
}

/// One entry of an event's opaque key/value payload.  The pipeline never
/// interprets payloads; they are carried to the persistence sink as-is.
#[derive(Debug, Clone)]
pub enum PayloadValue {
    Text(String),
    Count(u64),
    Flag(bool),
}

/// Tracking events: everything the pipeline can observe.
///
/// Every envelope is scoped to a tenant; monetary cost is carried in
/// microdollars so that aggregation is exact.
#[derive(Debug, Clone)]
pub enum TrackingEvent {
    /// A session started.
    SessionStart {
        session_id: String,
        tenant_id: String,
        user_id: String,
        conversation_id: String,
    },
    /// A session ended, explicitly or by reaper-issued timeout.
    SessionEnd { session_id: String, reason: SessionEndReason },
    /// A user message was received.
    MessageReceived {
        session_id: String,
        tenant_id: String,
        user_id: String,
        conversation_id: String,
        message_id: String,
        character_count: u64,
        has_attachments: bool,
    },
    /// A bot message was sent.
    MessageSent {
        session_id: String,
        tenant_id: String,
        user_id: String,
        conversation_id: String,
        message_id: String,
        character_count: u64,
        response_time_ms: u64,
    },
    /// An external API call was accounted.
    ApiCall {
        session_id: String,
        tenant_id: String,
        user_id: String,
        api_type: ApiType,
        tokens: Option<u32>,
        cost_microdollars: u64,
    },
    /// A feature was used inside the conversation.
    FeatureUsed {
        session_id: String,
        tenant_id: String,
        user_id: String,
        feature: FeatureType,
        feature_detail: String,
    },
}

} // verus!
