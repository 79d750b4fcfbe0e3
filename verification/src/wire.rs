use vstd::prelude::*;

use crate::error::Error;
use crate::models::EventConsolidatedState;
use crate::models::EventStatusUpdatePayload;
use crate::models::ErrorResponse;
use crate::models::Timestamp;
use crate::models::spec_status_from_token;
use crate::models::spec_status_token;
use crate::models::status_from_token;
use crate::models::status_token;

verus! {

// ---------------------------------------------------------------------
// JSON string escaping, and the serialized form of the update payload.
// ---------------------------------------------------------------------

/// The lowercase hexadecimal digit for a value below sixteen.
pub open spec fn spec_hex_digit(d: int) -> char {
    if d < 10 {
        ((d + 48) as u8) as char
    } else {
        ((d + 87) as u8) as char
    }
}

/// How one character is written inside a JSON string literal: the
/// quote and the backslash get a backslash escape, the five control
/// characters with a short escape use it, every other control
/// character is written as a `\u00..` sequence, and everything else
/// stands for itself.
pub open spec fn spec_escape_char(c: char) -> Seq<char> {
    if c == '"' {
        seq!['\\', '"']
    } else if c == '\\' {
        seq!['\\', '\\']
    } else if c == '\u{8}' {
        seq!['\\', 'b']
    } else if c == '\u{c}' {
        seq!['\\', 'f']
    } else if c == '\n' {
        seq!['\\', 'n']
    } else if c == '\r' {
        seq!['\\', 'r']
    } else if c == '\t' {
        seq!['\\', 't']
    } else if (c as u32) < 32 {
        seq![
            '\\',
            'u',
            '0',
            '0',
            spec_hex_digit(c as u32 as int / 16),
            spec_hex_digit(c as u32 as int % 16),
        ]
    } else {
        seq![c]
    }
}

/// A whole character sequence escaped for a JSON string literal.
pub open spec fn spec_escape(s: Seq<char>) -> Seq<char>
    decreases s.len(),
{
    if s.len() == 0 {
        Seq::empty()
    } else {
        spec_escape(s.drop_last()) + spec_escape_char(s.last())
    }
}

/// A JSON string literal: the escaped characters between quotes.
pub open spec fn spec_json_string(s: Seq<char>) -> Seq<char> {
    seq!['"'] + spec_escape(s) + seq!['"']
}

proof fn lemma_escape_push(p: Seq<char>, c: char)
    ensures
        spec_escape(p.push(c)) == spec_escape(p) + spec_escape_char(c),
{
    assert(p.push(c).drop_last() =~= p);
    assert(p.push(c).last() == c);
}

/// Relies on String::push: appends the given character to the end of
/// the string.
#[verifier::external_body]
fn push_char(out: &mut String, c: char)
    ensures
        final(out)@ == old(out)@.push(c),
{
    out.push(c);
}

fn hex_digit(d: u8) -> (r: char)
    requires
        d < 16,
    ensures
        r == spec_hex_digit(d as int),
{
    if d < 10 {
        (d + 48) as char
    } else {
        (d + 87) as char
    }
}

/// Writes one character of a JSON string literal, escaped as the wire
/// format asks.
fn push_escaped(out: &mut String, c: char)
    ensures
        final(out)@ == old(out)@ + spec_escape_char(c),
{
    let ghost start = out@;
    if c == '"' {
        push_char(out, '\\');
        push_char(out, '"');
    } else if c == '\\' {
        push_char(out, '\\');
        push_char(out, '\\');
    } else if c == '\u{8}' {
        push_char(out, '\\');
        push_char(out, 'b');
    } else if c == '\u{c}' {
        push_char(out, '\\');
        push_char(out, 'f');
    } else if c == '\n' {
        push_char(out, '\\');
        push_char(out, 'n');
    } else if c == '\r' {
        push_char(out, '\\');
        push_char(out, 'r');
    } else if c == '\t' {
        push_char(out, '\\');
        push_char(out, 't');
    } else if (c as u32) < 32 {
        let v: u32 = c as u32;
        push_char(out, '\\');
        push_char(out, 'u');
        push_char(out, '0');
        push_char(out, '0');
        push_char(out, hex_digit((v / 16) as u8));
        push_char(out, hex_digit((v % 16) as u8));
    } else {
        push_char(out, c);
    }
    assert(out@ =~= start + spec_escape_char(c));
}

/// Writes a string as a JSON string literal, quoted and escaped.
fn push_json_string(out: &mut String, s: &str)
    ensures
        final(out)@ == old(out)@ + spec_json_string(s@),
{
    let ghost start = out@;
    push_char(out, '"');
    for c in it: s.chars()
        invariant
            it.seq() == s@,
            out@ == start + seq!['"'] + spec_escape(s@.take(it.index() as int)),
    {
        proof {
            lemma_escape_push(s@.take(it.index() as int), c);
            assert(s@.take(it.index() as int).push(c) =~= s@.take(it.index() as int + 1));
        }
        push_escaped(out, c);
    }
    assert(s@.take(s@.len() as int) =~= s@);
    push_char(out, '"');
    assert(out@ =~= start + spec_json_string(s@));
}

// ---------------------------------------------------------------------
// RFC 3339 timestamps, through chrono.
// ---------------------------------------------------------------------

/// What chrono renders for a UTC instant given as seconds and
/// nanoseconds: `None` when the instant lies outside the representable
/// datetime range.
pub uninterp spec fn rfc3339_of(secs: int, nanos: int) -> Option<Seq<char>>;

/// What chrono reads out of an RFC 3339 datetime string: the UTC
/// seconds and the subsecond nanoseconds, or `None` when the string is
/// not an RFC 3339 datetime.
pub uninterp spec fn rfc3339_parse(s: Seq<char>) -> Option<(int, int)>;

/// Relies on chrono's DateTime::from_timestamp and to_rfc3339_opts
/// (automatic subsecond precision, `Z` for UTC): the RFC 3339
/// rendering of the UTC instant, which depends on the seconds and
/// nanoseconds alone; `None` exactly when the instant is outside
/// chrono's representable range.
#[verifier::external_body]
fn format_rfc3339(secs: i64, nanos: u32) -> (r: Option<String>)
    ensures
        r matches Some(v) ==> rfc3339_of(secs as int, nanos as int) matches Some(w) && v@ == w,
        r is None <==> rfc3339_of(secs as int, nanos as int) is None,
{
    let dt = chrono::DateTime::<chrono::Utc>::from_timestamp(secs, nanos)?;
    Some(dt.to_rfc3339_opts(chrono::SecondsFormat::AutoSi, true))
}

/// Relies on chrono's DateTime::parse_from_rfc3339, timestamp and
/// timestamp_subsec_nanos: the UTC seconds and subsecond nanoseconds
/// an RFC 3339 datetime string denotes, which depend on the string
/// alone; `None` exactly when the string is not an RFC 3339 datetime.
#[verifier::external_body]
fn parse_rfc3339_str(s: &str) -> (r: Option<(i64, u32)>)
    ensures
        r matches Some(p) ==> rfc3339_parse(s@) matches Some(q) && p.0 as int == q.0 && p.1
            as int == q.1,
        r is None <==> rfc3339_parse(s@) is None,
{
    let dt = chrono::DateTime::parse_from_rfc3339(s).ok()?;
    Some((dt.timestamp(), dt.timestamp_subsec_nanos()))
}

// ---------------------------------------------------------------------
// Serializing the update payload.
// ---------------------------------------------------------------------

/// Whether the payload can be serialized at all: a set timestamp must
/// lie inside the range chrono can render.
pub open spec fn spec_payload_json_defined(p: EventStatusUpdatePayload) -> bool {
    p.timestamp matches Some(t) ==> rfc3339_of(t.secs as int, t.nanos as int) is Some
}

/// The exact JSON body of an update payload.  Fields keep their
/// declaration order and a field left unset is omitted entirely,
/// never written as `null`.
pub open spec fn spec_payload_json(p: EventStatusUpdatePayload) -> Seq<char> {
    "{\"status\":\""@ + spec_status_token(p.status) + "\""@ + (match p.message {
        Some(m) => ",\"message\":"@ + spec_json_string(m@),
        None => Seq::<char>::empty(),
    }) + (match p.acknowledged {
        Some(b) => if b {
            ",\"acknowledged\":true"@
        } else {
            ",\"acknowledged\":false"@
        },
        None => Seq::<char>::empty(),
    }) + (match p.timestamp {
        Some(t) => ",\"timestamp\":"@ + spec_json_string(
            rfc3339_of(t.secs as int, t.nanos as int)->0,
        ),
        None => Seq::<char>::empty(),
    }) + (match p.notification_listener_id {
        Some(n) => ",\"notification_listener_id\":"@ + spec_json_string(n@),
        None => Seq::<char>::empty(),
    }) + "}"@
}

impl EventStatusUpdatePayload {
    /// Serializes the payload to its JSON body.  This fails only when
    /// a set timestamp lies outside the range chrono can render, and
    /// then with a `Validation` error.
    pub fn to_json(&self) -> (r: Result<String, Error>)
        ensures
            r is Ok <==> spec_payload_json_defined(*self),
            r matches Ok(s) ==> s@ == spec_payload_json(*self),
            r matches Err(e) ==> e matches Error::Validation(_),
    {
        let mut out: String = "{\"status\":\"".to_owned();
        out.append(status_token(self.status));
        out.append("\"");
        match &self.message {
            Some(m) => {
                out.append(",\"message\":");
                push_json_string(&mut out, m.as_str());
            },
            None => {},
        }
        match &self.acknowledged {
            Some(b) => {
                if *b {
                    out.append(",\"acknowledged\":true");
                } else {
                    out.append(",\"acknowledged\":false");
                }
            },
            None => {},
        }
        match &self.timestamp {
            Some(t) => {
                match format_rfc3339(t.secs, t.nanos) {
                    Some(f) => {
                        out.append(",\"timestamp\":");
                        push_json_string(&mut out, f.as_str());
                    },
                    None => {
                        return Err(
                            Error::Validation(
                                "the timestamp lies outside the representable datetime range".to_owned(),
                            ),
                        );
                    },
                }
            },
            None => {},
        }
        match &self.notification_listener_id {
            Some(n) => {
                out.append(",\"notification_listener_id\":");
                push_json_string(&mut out, n.as_str());
            },
            None => {},
        }
        out.append("}");
        assert(out@ =~= spec_payload_json(*self));
        Ok(out)
    }
}

/// A payload built with only a status set serializes to a JSON object
/// holding exactly the `status` key, with the status's token as its
/// value and no other key present.
pub proof fn lemma_minimal_payload_json(p: EventStatusUpdatePayload)
    requires
        p.message is None,
        p.acknowledged is None,
        p.timestamp is None,
        p.notification_listener_id is None,
    ensures
        spec_payload_json(p) == "{\"status\":\""@ + spec_status_token(p.status) + "\"}"@,
{
    reveal_strlit("\"");
    reveal_strlit("}");
    reveal_strlit("\"}");
    assert(spec_payload_json(p) =~= "{\"status\":\""@ + spec_status_token(p.status)
        + "\"}"@);
}

// ---------------------------------------------------------------------
// Reading response bodies, through serde_json.
// ---------------------------------------------------------------------

/// What serde_json finds at `key` in `body`: the string value of that
/// key when `body` parses as JSON with a top-level object holding a
/// string there, and `None` otherwise.
pub uninterp spec fn json_str_field(body: Seq<char>, key: Seq<char>) -> Option<Seq<char>>;

/// What serde_json finds at `key` in `body`: the boolean value of
/// that key when `body` parses as JSON with a top-level object holding
/// a boolean there, and `None` otherwise.
pub uninterp spec fn json_bool_field(body: Seq<char>, key: Seq<char>) -> Option<bool>;

/// Relies on serde_json::from_str, Value::get and Value::as_str: the
/// string at `key` in the top-level JSON object of `body`; `None` when
/// `body` is not valid JSON, its top level is no object, or the value
/// there is no string.  The result depends on `body` and `key` alone.
#[verifier::external_body]
fn get_str_field(body: &str, key: &str) -> (r: Option<String>)
    ensures
        r matches Some(v) ==> json_str_field(body@, key@) matches Some(w) && v@ == w,
        r is None <==> json_str_field(body@, key@) is None,
{
    let doc: serde_json::Value = serde_json::from_str(body).ok()?;
    Some(doc.get(key)?.as_str()?.to_owned())
}

/// What serde_json finds at `key` in `body`: whether the top-level
/// JSON object of `body` holds nothing, or a JSON null, at `key`;
/// also true when `body` is not valid JSON or its top level is no
/// object, where no field exists at all.
pub uninterp spec fn json_field_absent_or_null(body: Seq<char>, key: Seq<char>) -> bool;

/// Relies on serde_json::from_str, Value::get and Value::is_null:
/// true when the top-level JSON object of `body` holds nothing, or a
/// JSON null, at `key`, and also when `body` is not valid JSON or
/// its top level is no object.  The result depends on `body` and
/// `key` alone.
#[verifier::external_body]
fn field_absent_or_null(body: &str, key: &str) -> (r: bool)
    ensures
        r == json_field_absent_or_null(body@, key@),
{
    match serde_json::from_str::<serde_json::Value>(body) {
        Err(_) => true,
        Ok(doc) => match doc.get(key) {
            None => true,
            Some(v) => v.is_null(),
        },
    }
}

/// Relies on serde_json::from_str, Value::get and Value::as_bool: the
/// boolean at `key` in the top-level JSON object of `body`; `None`
/// when `body` is not valid JSON, its top level is no object, or the
/// value there is no boolean.  The result depends on `body` and `key`
/// alone.
#[verifier::external_body]
fn get_bool_field(body: &str, key: &str) -> (r: Option<bool>)
    ensures
        r matches Some(v) ==> json_bool_field(body@, key@) matches Some(w) && v == w,
        r is None <==> json_bool_field(body@, key@) is None,
{
    let doc: serde_json::Value = serde_json::from_str(body).ok()?;
    doc.get(key)?.as_bool()
}

/// The best-effort error body of a failure response, when the body is
/// a JSON object with a string under `error`.
pub fn error_response_from_body(body: &str) -> (r: Option<ErrorResponse>)
    ensures
        r matches Some(er) ==> json_str_field(body@, "error"@) matches Some(m) && er.error@
            == m,
        r is None <==> json_str_field(body@, "error"@) is None,
{
    match get_str_field(body, "error") {
        Some(m) => Some(ErrorResponse { error: m }),
        None => None,
    }
}

/// Whether a success body carries every required field with the right
/// shape: string `id`, `name`, `type`, `designation` and `message`, a
/// status token, a boolean `acknowledged`, and an RFC 3339
/// `last_updated`.
pub open spec fn spec_state_fields_ok(body: Seq<char>) -> bool {
    &&& json_str_field(body, "id"@) is Some
    &&& json_str_field(body, "name"@) is Some
    &&& json_str_field(body, "type"@) is Some
    &&& json_str_field(body, "designation"@) is Some
    &&& (json_str_field(body, "status"@) matches Some(t) && spec_status_from_token(t) is Some)
    &&& json_bool_field(body, "acknowledged"@) is Some
    &&& (json_str_field(body, "last_updated"@) matches Some(u) && rfc3339_parse(u) is Some)
    &&& json_str_field(body, "message"@) is Some
    &&& (json_str_field(body, "notification_listener_id"@) is Some || json_field_absent_or_null(
        body,
        "notification_listener_id"@,
    ))
}

/// Whether a decoded state carries exactly what the body holds, field
/// by field, with an absent `notification_listener_id` left unset.
pub open spec fn spec_state_matches(st: EventConsolidatedState, body: Seq<char>) -> bool {
    &&& json_str_field(body, "id"@) == Some(st.id@)
    &&& json_str_field(body, "name"@) == Some(st.name@)
    &&& json_str_field(body, "type"@) == Some(st.event_type@)
    &&& json_str_field(body, "designation"@) == Some(st.designation@)
    &&& (json_str_field(body, "status"@) matches Some(t) && spec_status_from_token(t) == Some(
        st.status,
    ))
    &&& json_bool_field(body, "acknowledged"@) == Some(st.acknowledged)
    &&& (json_str_field(body, "last_updated"@) matches Some(u) && rfc3339_parse(u) == Some(
        (st.last_updated.secs as int, st.last_updated.nanos as int),
    ))
    &&& (match json_str_field(body, "notification_listener_id"@) {
        Some(v) => st.notification_listener_id matches Some(x) && x@ == v,
        None => st.notification_listener_id is None,
    })
}

/// Decodes a success body into the consolidated state.  This succeeds
/// exactly when every required field is present with the right shape;
/// a failure is always an `UnexpectedResponse`, never a partially
/// populated state.
pub fn decode_state(body: &str) -> (r: Result<EventConsolidatedState, Error>)
    ensures
        r is Ok <==> spec_state_fields_ok(body@),
        r matches Ok(st) ==> spec_state_matches(st, body@),
        r matches Err(e) ==> e matches Error::UnexpectedResponse(_),
{
    let id = match get_str_field(body, "id") {
        Some(v) => v,
        None => {
            return Err(
                Error::UnexpectedResponse("the response body holds no string `id` field".to_owned()),
            );
        },
    };
    let name = match get_str_field(body, "name") {
        Some(v) => v,
        None => {
            return Err(
                Error::UnexpectedResponse("the response body holds no string `name` field".to_owned()),
            );
        },
    };
    let event_type = match get_str_field(body, "type") {
        Some(v) => v,
        None => {
            return Err(
                Error::UnexpectedResponse("the response body holds no string `type` field".to_owned()),
            );
        },
    };
    let designation = match get_str_field(body, "designation") {
        Some(v) => v,
        None => {
            return Err(
                Error::UnexpectedResponse(
                    "the response body holds no string `designation` field".to_owned(),
                ),
            );
        },
    };
    let status_token_value = match get_str_field(body, "status") {
        Some(v) => v,
        None => {
            return Err(
                Error::UnexpectedResponse(
                    "the response body holds no string `status` field".to_owned(),
                ),
            );
        },
    };
    let status = match status_from_token(status_token_value.as_str()) {
        Some(s) => s,
        None => {
            return Err(
                Error::UnexpectedResponse(
                    "the `status` field is not one of the four status tokens".to_owned(),
                ),
            );
        },
    };
    let acknowledged = match get_bool_field(body, "acknowledged") {
        Some(v) => v,
        None => {
            return Err(
                Error::UnexpectedResponse(
                    "the response body holds no boolean `acknowledged` field".to_owned(),
                ),
            );
        },
    };
    let last_updated_text = match get_str_field(body, "last_updated") {
        Some(v) => v,
        None => {
            return Err(
                Error::UnexpectedResponse(
                    "the response body holds no string `last_updated` field".to_owned(),
                ),
            );
        },
    };
    let last_updated = match parse_rfc3339_str(last_updated_text.as_str()) {
        Some(p) => Timestamp { secs: p.0, nanos: p.1 },
        None => {
            return Err(
                Error::UnexpectedResponse(
                    "the `last_updated` field is not an RFC 3339 datetime".to_owned(),
                ),
            );
        },
    };
    let message = match get_str_field(body, "message") {
        Some(v) => v,
        None => {
            return Err(
                Error::UnexpectedResponse(
                    "the response body holds no string `message` field".to_owned(),
                ),
            );
        },
    };
    let notification_listener_id = match get_str_field(body, "notification_listener_id") {
        Some(v) => Some(v),
        None => {
            if field_absent_or_null(body, "notification_listener_id") {
                None
            } else {
                return Err(
                    Error::UnexpectedResponse(
                        "the `notification_listener_id` field is neither a string nor null".to_owned(),
                    ),
                );
            }
        },
    };
    Ok(
        EventConsolidatedState {
            id,
            name,
            event_type,
            designation,
            status,
            acknowledged,
            last_updated,
            message,
            notification_listener_id,
        },
    )
}

} // verus!
