//! Wire codec: frames outbound commands as JSON text and classifies inbound
//! frames as responses or events.
//!
//! Structured values (a command's parameters, a response's result, an event's
//! parameters) travel as the text of one JSON value and are never looked into.

use vstd::prelude::*;
use vstd::string::*;

use crate::error::CdpErrorData;
use crate::text::{append_decimal, decimal, str_eq};

verus! {

/// The JSON string literal that serde_json writes for `s`, quotes included.
pub uninterp spec fn json_string_of(s: Seq<char>) -> Seq<char>;

/// The members of the JSON object that `text` holds, each paired with the
/// compact JSON text of its value; `None` when `text` is no JSON object.
pub uninterp spec fn object_members_of(text: Seq<char>) -> Option<Seq<(Seq<char>, Seq<char>)>>;

/// The unsigned integer that the JSON text `text` holds, if it is one.
pub uninterp spec fn json_u64_of(text: Seq<char>) -> Option<u64>;

/// The signed integer that the JSON text `text` holds, if it is one.
pub uninterp spec fn json_i64_of(text: Seq<char>) -> Option<i64>;

/// The string that the JSON text `text` holds, if it is a JSON string.
pub uninterp spec fn json_text_of(text: Seq<char>) -> Option<Seq<char>>;

/// Relies on serde_json::to_string, which writes a `str` as one JSON string
/// literal and cannot fail on it.
#[verifier::external_body]
pub(crate) fn json_quote(s: &str) -> (r: String)
    ensures
        r@ == json_string_of(s@),
{
    match serde_json::to_string(s) {
        Ok(t) => t,
        Err(_) => String::new(),
    }
}

/// The view of a list of members as pairs of character sequences.
pub open spec fn members_view(ms: Seq<(String, String)>) -> Seq<(Seq<char>, Seq<char>)> {
    ms.map_values(|p: (String, String)| (p.0@, p.1@))
}

/// Relies on serde_json::from_str into a `serde_json::Map`: it parses a JSON
/// object; each value is handed out as its compact text (the `Display` of
/// `serde_json::Value`).
#[verifier::external_body]
pub(crate) fn parse_object(text: &str) -> (r: Option<Vec<(String, String)>>)
    ensures
        match r {
            Some(ms) => object_members_of(text@) == Some(members_view(ms@)),
            None => object_members_of(text@) is None,
        },
{
    match serde_json::from_str::<serde_json::Map<String, serde_json::Value>>(text) {
        Ok(m) => Some(m.into_iter().map(|(k, v)| (k, v.to_string())).collect()),
        Err(_) => None,
    }
}

/// The items of the JSON array that `text` holds, each as its compact JSON
/// text; `None` when `text` is no JSON array.
pub uninterp spec fn array_items_of(text: Seq<char>) -> Option<Seq<Seq<char>>>;

/// Relies on serde_json::from_str into a `Vec<serde_json::Value>`: it parses a
/// JSON array; each item is handed out as its compact text (the `Display` of
/// `serde_json::Value`).
#[verifier::external_body]
pub(crate) fn parse_array(text: &str) -> (r: Option<Vec<String>>)
    ensures
        match r {
            Some(items) => array_items_of(text@) == Some(items@.map_values(|s: String| s@)),
            None => array_items_of(text@) is None,
        },
{
    match serde_json::from_str::<Vec<serde_json::Value>>(text) {
        Ok(items) => Some(items.into_iter().map(|v| v.to_string()).collect()),
        Err(_) => None,
    }
}

/// Relies on serde_json::from_str into a `u64`.
#[verifier::external_body]
fn parse_u64(text: &str) -> (r: Option<u64>)
    ensures
        r == json_u64_of(text@),
{
    serde_json::from_str::<u64>(text).ok()
}

/// Relies on serde_json::from_str into an `i64`.
#[verifier::external_body]
fn parse_i64(text: &str) -> (r: Option<i64>)
    ensures
        r == json_i64_of(text@),
{
    serde_json::from_str::<i64>(text).ok()
}

/// Relies on serde_json::from_str into a `String`.
#[verifier::external_body]
pub(crate) fn parse_string(text: &str) -> (r: Option<String>)
    ensures
        match r {
            Some(s) => json_text_of(text@) == Some(s@),
            None => json_text_of(text@) is None,
        },
{
    serde_json::from_str::<String>(text).ok()
}

/// One command as it goes on the wire.
#[derive(Debug)]
pub struct Command {
    pub id: u64,
    pub method: String,
    /// The text of one JSON value.
    pub params: String,
}

/// The frame text of a command: `{"id":<id>,"method":<method>,"params":<params>}`,
/// where `method_json` is the method already written as a JSON string.
pub open spec fn command_frame(id: nat, method_json: Seq<char>, params: Seq<char>) -> Seq<char> {
    "{\"id\":"@ + decimal(id) + ",\"method\":"@ + method_json + ",\"params\":"@ + params + "}"@
}

/// Encodes a command as the text of one protocol frame.
pub fn encode(cmd: &Command) -> (r: String)
    ensures
        r@ == command_frame(cmd.id as nat, json_string_of(cmd.method@), cmd.params@),
{
    let mut out = String::from_str("{\"id\":");
    append_decimal(&mut out, cmd.id);
    out.append(",\"method\":");
    let quoted = json_quote(cmd.method.as_str());
    out.append(quoted.as_str());
    out.append(",\"params\":");
    out.append(cmd.params.as_str());
    out.append("}");
    out
}


/// Why an inbound frame was dropped.
#[derive(PartialEq, Eq, Structural, Debug, Clone, Copy)]
pub enum DecodeError {
    /// The text is no JSON object, or a field has the wrong type.
    Malformed,
    /// The frame is neither a response (an id and no method) nor an event
    /// (a method and no id).
    Unclassified,
}

/// An unsolicited message of the far end.
#[derive(Clone, Debug)]
pub struct CdpEvent {
    pub method: String,
    /// The text of one JSON value.
    pub params: String,
}

/// A classified inbound frame.
pub enum InboundFrame {
    /// The answer to the command with this correlation id: its result text,
    /// or the error that the far end reported.
    Response { id: u64, outcome: Result<String, CdpErrorData> },
    Event(CdpEvent),
}

/// The fields of an inbound frame that the codec reads; a field given as
/// JSON `null` counts as absent.
pub struct FrameFields {
    pub id: Option<u64>,
    pub method: Option<String>,
    pub result: Option<String>,
    pub error: Option<CdpErrorData>,
    pub params: Option<String>,
}

/// The fields of a frame, as character sequences.
pub struct FieldsModel {
    pub id: Option<u64>,
    pub method: Option<Seq<char>>,
    pub result: Option<Seq<char>>,
    pub error: Option<(i64, Seq<char>)>,
    pub params: Option<Seq<char>>,
}

/// A classified frame, as character sequences.
pub enum FrameModel {
    Response { id: u64, outcome: Result<Seq<char>, (i64, Seq<char>)> },
    Event { method: Seq<char>, params: Seq<char> },
}

/// The view of an optional string.
pub open spec fn opt_view(o: Option<String>) -> Option<Seq<char>> {
    match o {
        Some(s) => Some(s@),
        None => None,
    }
}

impl View for FrameFields {
    type V = FieldsModel;

    open spec fn view(&self) -> FieldsModel {
        FieldsModel {
            id: self.id,
            method: opt_view(self.method),
            result: opt_view(self.result),
            error: match self.error {
                Some(e) => Some(e@),
                None => None,
            },
            params: opt_view(self.params),
        }
    }
}

impl View for InboundFrame {
    type V = FrameModel;

    open spec fn view(&self) -> FrameModel {
        match self {
            InboundFrame::Response { id, outcome } => FrameModel::Response {
                id: *id,
                outcome: match outcome {
                    Ok(v) => Ok(v@),
                    Err(e) => Err(e@),
                },
            },
            InboundFrame::Event(ev) => FrameModel::Event { method: ev.method@, params: ev.params@ },
        }
    }
}

/// How a frame with the given fields is classified: an id without a method is
/// a response (the error wins over the result; a missing result is `null`), a
/// method without an id is an event (missing parameters are `null`), anything
/// else is refused.
pub open spec fn classify_fields(f: FieldsModel) -> Result<FrameModel, DecodeError> {
    match (f.id, f.method) {
        (Some(id), None) => Ok(
            FrameModel::Response {
                id,
                outcome: match f.error {
                    Some(e) => Err(e),
                    None => Ok(
                        match f.result {
                            Some(r) => r,
                            None => "null"@,
                        },
                    ),
                },
            },
        ),
        (None, Some(m)) => Ok(
            FrameModel::Event {
                method: m,
                params: match f.params {
                    Some(p) => p,
                    None => "null"@,
                },
            },
        ),
        _ => Err(DecodeError::Unclassified),
    }
}

/// The value text of the first member named `key`, from index `i` on.
pub open spec fn lookup_from(ms: Seq<(Seq<char>, Seq<char>)>, key: Seq<char>, i: int) -> Option<
    Seq<char>,
>
    decreases ms.len() - i,
{
    if i < 0 || i >= ms.len() {
        None
    } else if ms[i].0 == key {
        Some(ms[i].1)
    } else {
        lookup_from(ms, key, i + 1)
    }
}

/// The value text of the member named `key`, absent when it is `null`.
pub open spec fn present(ms: Seq<(Seq<char>, Seq<char>)>, key: Seq<char>) -> Option<Seq<char>> {
    match lookup_from(ms, key, 0) {
        Some(t) => if t == "null"@ {
            None
        } else {
            Some(t)
        },
        None => None,
    }
}

/// An optional integer field: `None` when it is present but no `u64`.
pub open spec fn u64_field(t: Option<Seq<char>>) -> Option<Option<u64>> {
    match t {
        None => Some(None),
        Some(t) => match json_u64_of(t) {
            Some(n) => Some(Some(n)),
            None => None,
        },
    }
}

/// An optional string field: `None` when it is present but no JSON string.
pub open spec fn text_field(t: Option<Seq<char>>) -> Option<Option<Seq<char>>> {
    match t {
        None => Some(None),
        Some(t) => match json_text_of(t) {
            Some(s) => Some(Some(s)),
            None => None,
        },
    }
}

/// The error object `{code, message}`, both required.
pub open spec fn error_object(t: Seq<char>) -> Option<(i64, Seq<char>)> {
    match object_members_of(t) {
        Some(ems) => match (lookup_from(ems, "code"@, 0), lookup_from(ems, "message"@, 0)) {
            (Some(c), Some(m)) => match (json_i64_of(c), json_text_of(m)) {
                (Some(code), Some(message)) => Some((code, message)),
                _ => None,
            },
            _ => None,
        },
        None => None,
    }
}

/// An optional error field: `None` when it is present but malformed.
pub open spec fn error_field(t: Option<Seq<char>>) -> Option<Option<(i64, Seq<char>)>> {
    match t {
        None => Some(None),
        Some(t) => match error_object(t) {
            Some(e) => Some(Some(e)),
            None => None,
        },
    }
}

/// The fields of a frame given its members; `None` when one is malformed.
pub open spec fn fields_of(ms: Seq<(Seq<char>, Seq<char>)>) -> Option<FieldsModel> {
    match (
        u64_field(present(ms, "id"@)),
        text_field(present(ms, "method"@)),
        error_field(present(ms, "error"@)),
    ) {
        (Some(id), Some(method), Some(error)) => Some(
            FieldsModel {
                id,
                method,
                result: present(ms, "result"@),
                error,
                params: present(ms, "params"@),
            },
        ),
        _ => None,
    }
}

/// What decoding the frame text `text` yields.
pub open spec fn decode_text(text: Seq<char>) -> Result<FrameModel, DecodeError> {
    match object_members_of(text) {
        None => Err(DecodeError::Malformed),
        Some(ms) => match fields_of(ms) {
            None => Err(DecodeError::Malformed),
            Some(f) => classify_fields(f),
        },
    }
}

/// Classifies a frame by its fields.
pub fn classify(fields: FrameFields) -> (r: Result<InboundFrame, DecodeError>)
    ensures
        match r {
            Ok(f) => classify_fields(fields@) == Ok::<FrameModel, DecodeError>(f@),
            Err(e) => classify_fields(fields@) == Err::<FrameModel, DecodeError>(e),
        },
{
    let FrameFields { id, method, result, error, params } = fields;
    match (id, method) {
        (Some(id), None) => {
            let outcome = match error {
                Some(e) => Err(e),
                None => match result {
                    Some(v) => Ok(v),
                    None => Ok(null_text()),
                },
            };
            Ok(InboundFrame::Response { id, outcome })
        },
        (None, Some(m)) => {
            let params = match params {
                Some(p) => p,
                None => null_text(),
            };
            Ok(InboundFrame::Event(CdpEvent { method: m, params }))
        },
        _ => Err(DecodeError::Unclassified),
    }
}

fn null_text() -> (r: String)
    ensures
        r@ == "null"@,
{
    String::from_str("null")
}

/// Index of the first member named `key`.
pub(crate) fn find_member(ms: &Vec<(String, String)>, key: &str) -> (r: Option<String>)
    ensures
        opt_view(r) == lookup_from(members_view(ms@), key@, 0),
{
    let ghost v = members_view(ms@);
    let mut i: usize = 0;
    while i < ms.len()
        invariant
            i <= ms@.len(),
            v == members_view(ms@),
            lookup_from(v, key@, 0) == lookup_from(v, key@, i as int),
        decreases ms@.len() - i,
    {
        if str_eq(ms[i].0.as_str(), key) {
            return Some(ms[i].1.clone());
        }
        i = i + 1;
    }
    None
}

fn present_member(ms: &Vec<(String, String)>, key: &str) -> (r: Option<String>)
    ensures
        opt_view(r) == present(members_view(ms@), key@),
{
    match find_member(ms, key) {
        Some(t) => {
            if str_eq(t.as_str(), "null") {
                None
            } else {
                Some(t)
            }
        },
        None => None,
    }
}

fn read_error(text: &str) -> (r: Option<CdpErrorData>)
    ensures
        match r {
            Some(e) => error_object(text@) == Some(e@),
            None => error_object(text@) is None,
        },
{
    let ems = match parse_object(text) {
        Some(ems) => ems,
        None => return None,
    };
    let c = match find_member(&ems, "code") {
        Some(c) => c,
        None => return None,
    };
    let m = match find_member(&ems, "message") {
        Some(m) => m,
        None => return None,
    };
    let code = match parse_i64(c.as_str()) {
        Some(code) => code,
        None => return None,
    };
    match parse_string(m.as_str()) {
        Some(message) => Some(CdpErrorData { code, message }),
        None => None,
    }
}

fn read_fields(ms: &Vec<(String, String)>) -> (r: Option<FrameFields>)
    ensures
        match r {
            Some(f) => fields_of(members_view(ms@)) == Some(f@),
            None => fields_of(members_view(ms@)) is None,
        },
{
    let id = match present_member(ms, "id") {
        Some(t) => match parse_u64(t.as_str()) {
            Some(n) => Some(n),
            None => return None,
        },
        None => None,
    };
    let method = match present_member(ms, "method") {
        Some(t) => match parse_string(t.as_str()) {
            Some(s) => Some(s),
            None => return None,
        },
        None => None,
    };
    let error = match present_member(ms, "error") {
        Some(t) => match read_error(t.as_str()) {
            Some(e) => Some(e),
            None => return None,
        },
        None => None,
    };
    let result = present_member(ms, "result");
    let params = present_member(ms, "params");
    let f = FrameFields { id, method, result, error, params };
    assert(fields_of(members_view(ms@)) == Some(f@));
    Some(f)
}

/// Decodes the text of one inbound frame.
pub fn decode(text: &str) -> (r: Result<InboundFrame, DecodeError>)
    ensures
        match r {
            Ok(f) => decode_text(text@) == Ok::<FrameModel, DecodeError>(f@),
            Err(e) => decode_text(text@) == Err::<FrameModel, DecodeError>(e),
        },
{
    let ms = match parse_object(text) {
        Some(ms) => ms,
        None => return Err(DecodeError::Malformed),
    };
    match read_fields(&ms) {
        Some(f) => classify(f),
        None => Err(DecodeError::Malformed),
    }
}

} // verus!
