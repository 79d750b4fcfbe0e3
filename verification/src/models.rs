use vstd::prelude::*;

verus! {

/// Status of an event as the backend understands it.
#[derive(Clone, Copy, Debug, PartialEq, Eq, Structural)]
pub enum EventStatus {
    /// The monitored system is operating normally.
    Okay,
    /// The monitored system is operating with warnings.
    Warning,
    /// The monitored system is in a critical state.
    Critical,
    /// The state of the monitored system is unknown.
    Unknown,
}

/// The exact lowercase token that stands for a status on the wire.
pub open spec fn spec_status_token(s: EventStatus) -> Seq<char> {
    match s {
        EventStatus::Okay => "ok"@,
        EventStatus::Warning => "warning"@,
        EventStatus::Critical => "critical"@,
        EventStatus::Unknown => "unknown"@,
    }
}

/// The status a wire token stands for; `None` for every other token.
pub open spec fn spec_status_from_token(t: Seq<char>) -> Option<EventStatus> {
    if t == "ok"@ {
        Some(EventStatus::Okay)
    } else if t == "warning"@ {
        Some(EventStatus::Warning)
    } else if t == "critical"@ {
        Some(EventStatus::Critical)
    } else if t == "unknown"@ {
        Some(EventStatus::Unknown)
    } else {
        None
    }
}

/// Wire token of a status.
pub fn status_token(s: EventStatus) -> (r: &'static str)
    ensures
        r@ == spec_status_token(s),
{
    match s {
        EventStatus::Okay => "ok",
        EventStatus::Warning => "warning",
        EventStatus::Critical => "critical",
        EventStatus::Unknown => "unknown",
    }
}

/// String equality on the character level.
fn str_eq(a: &str, b: &str) -> (r: bool)
    ensures
        r == (a@ == b@),
{
    let x: String = a.to_owned();
    let y: String = b.to_owned();
    x == y
}

/// Decodes a wire token back into a status; every token other than the
/// four lowercase ones is refused.
pub fn status_from_token(t: &str) -> (r: Option<EventStatus>)
    ensures
        r == spec_status_from_token(t@),
{
    if str_eq(t, "ok") {
        Some(EventStatus::Okay)
    } else if str_eq(t, "warning") {
        Some(EventStatus::Warning)
    } else if str_eq(t, "critical") {
        Some(EventStatus::Critical)
    } else if str_eq(t, "unknown") {
        Some(EventStatus::Unknown)
    } else {
        None
    }
}

/// Each status round-trips through its wire token, and a token decodes
/// to a status exactly when it is that status's own token.
pub proof fn lemma_status_token_round_trip(s: EventStatus, t: Seq<char>)
    ensures
        spec_status_from_token(spec_status_token(s)) == Some(s),
        spec_status_from_token(t) matches Some(s2) ==> spec_status_token(s2) == t,
{
    reveal_strlit("ok");
    reveal_strlit("warning");
    reveal_strlit("critical");
    reveal_strlit("unknown");
    assert("ok"@.len() == 2 && "warning"@.len() == 7 && "critical"@.len() == 8
        && "unknown"@.len() == 7);
    assert("warning"@[0] == 'w' && "unknown"@[0] == 'u');
    assert("warning"@ != "unknown"@);
    match s {
        EventStatus::Okay => {
            assert(spec_status_from_token("ok"@) == Some(EventStatus::Okay));
        },
        EventStatus::Warning => {
            assert(spec_status_from_token("warning"@) == Some(EventStatus::Warning));
        },
        EventStatus::Critical => {
            assert(spec_status_from_token("critical"@) == Some(EventStatus::Critical));
        },
        EventStatus::Unknown => {
            assert(spec_status_from_token("unknown"@) == Some(EventStatus::Unknown));
        },
    }
}

/// A point in time, as whole seconds since the Unix epoch together
/// with the subsecond nanoseconds.
#[derive(Clone, Copy, Debug, PartialEq, Eq, Structural)]
pub struct Timestamp {
    /// Whole seconds since 1970-01-01T00:00:00Z.
    pub secs: i64,
    /// Nanoseconds past the whole second.
    pub nanos: u32,
}

/// Outbound request body for an event status update.  A field left
/// unset is omitted from the serialized JSON entirely.
#[derive(Clone, Debug)]
pub struct EventStatusUpdatePayload {
    /// The current status of the event.
    pub status: EventStatus,
    /// A descriptive message associated with the current status.
    pub message: Option<String>,
    /// Whether the current status should be considered acknowledged.
    pub acknowledged: Option<bool>,
    /// When the status was recorded.
    pub timestamp: Option<Timestamp>,
    /// A particular notification listener to use for this update.
    pub notification_listener_id: Option<String>,
}

impl EventStatusUpdatePayload {
    /// A payload with the given status and every optional field unset.
    pub fn new(status: EventStatus) -> (r: Self)
        ensures
            r.status == status,
            r.message is None,
            r.acknowledged is None,
            r.timestamp is None,
            r.notification_listener_id is None,
    {
        Self {
            status,
            message: None,
            acknowledged: None,
            timestamp: None,
            notification_listener_id: None,
        }
    }

    /// Sets the message, leaving every other field as it was.
    pub fn with_message(self, message: String) -> (r: Self)
        ensures
            r.status == self.status,
            r.message == Some(message),
            r.acknowledged == self.acknowledged,
            r.timestamp == self.timestamp,
            r.notification_listener_id == self.notification_listener_id,
    {
        Self { message: Some(message), ..self }
    }

    /// Sets the acknowledged flag, leaving every other field as it was.
    pub fn with_acknowledged(self, acknowledged: bool) -> (r: Self)
        ensures
            r.status == self.status,
            r.message == self.message,
            r.acknowledged == Some(acknowledged),
            r.timestamp == self.timestamp,
            r.notification_listener_id == self.notification_listener_id,
    {
        Self { acknowledged: Some(acknowledged), ..self }
    }

    /// Sets the timestamp, leaving every other field as it was.
    pub fn with_timestamp(self, timestamp: Timestamp) -> (r: Self)
        ensures
            r.status == self.status,
            r.message == self.message,
            r.acknowledged == self.acknowledged,
            r.timestamp == Some(timestamp),
            r.notification_listener_id == self.notification_listener_id,
    {
        Self { timestamp: Some(timestamp), ..self }
    }

    /// Sets the notification listener id, leaving every other field as
    /// it was.
    pub fn with_notification_listener_id(self, notification_listener_id: String) -> (r: Self)
        ensures
            r.status == self.status,
            r.message == self.message,
            r.acknowledged == self.acknowledged,
            r.timestamp == self.timestamp,
            r.notification_listener_id == Some(notification_listener_id),
    {
        Self { notification_listener_id: Some(notification_listener_id), ..self }
    }
}

/// The backend's consolidated view of an event after an update.
#[derive(Clone, Debug)]
pub struct EventConsolidatedState {
    /// The unique identifier of the event.
    pub id: String,
    /// The name of the event.
    pub name: String,
    /// The type of the event.
    pub event_type: String,
    /// The designation of the event.
    pub designation: String,
    /// The current status of the event.
    pub status: EventStatus,
    /// Whether the current status is acknowledged.
    pub acknowledged: bool,
    /// When the event was last updated.
    pub last_updated: Timestamp,
    /// A message associated with the current status.
    pub message: String,
    /// The notification listener associated with the event, if any.
    pub notification_listener_id: Option<String>,
}

/// Best-effort error body of a failure response.
#[derive(Clone, Debug)]
pub struct ErrorResponse {
    /// The error message.
    pub error: String,
}

} // verus!
