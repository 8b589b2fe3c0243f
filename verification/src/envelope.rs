//! The wire envelopes: the request that goes out and the response that comes
//! back, both as JSON text.

use crate::json::{
    diagnostic, json_diagnostic, json_member, json_parse, json_quote, json_string, json_text,
    member, parse, quote, string, text, text_view, value_view,
};
use vstd::prelude::*;
use vstd::string::StringExecFns;

verus! {

/// What a request ends with: the decoded output, or the reason it failed.
pub type ProtoResult<OUT> = Result<OUT, String>;

/// A request envelope: the operation to invoke and its serialised payload.
#[derive(Debug, PartialEq, Eq)]
pub struct Input {
    pub service: String,
    pub action: String,
    pub payload: serde_json::Value,
}

/// A response envelope: the payload of a success, or the reason of a failure
/// that the remote side reports.
#[derive(Debug, PartialEq, Eq)]
pub enum Output {
    Item(serde_json::Value),
    Fail(String),
}

/// An [`Output`] with its text as a sequence of characters.
pub enum OutputView {
    Item(serde_json::Value),
    Fail(Seq<char>),
}

impl View for Output {
    type V = OutputView;

    open spec fn view(&self) -> OutputView {
        match self {
            Output::Item(item) => OutputView::Item(*item),
            Output::Fail(reason) => OutputView::Fail(reason@),
        }
    }
}

/// One JSON object with the members `service`, `action` and `payload`, in
/// this order and without white space, around three texts that are JSON
/// already.
pub open spec fn framed(service: Seq<char>, action: Seq<char>, payload: Seq<char>) -> Seq<char> {
    "{\"service\":"@ + service + ",\"action\":"@ + action + ",\"payload\":"@ + payload + "}"@
}

/// The wire text of a request: the names of the service and the action as
/// JSON strings and the payload as compact JSON, framed as one object.
pub open spec fn request_text(
    service: Seq<char>,
    action: Seq<char>,
    payload: serde_json::Value,
) -> Seq<char> {
    framed(json_text(json_quote(service)), json_text(json_quote(action)), json_text(payload))
}

/// The reason given for a response that lacks the member `name`.
pub open spec fn missing_field(name: Seq<char>) -> Seq<char> {
    "missing field `"@ + name + "`"@
}

/// The reason given for a response whose `event` is neither `item` nor `fail`.
pub open spec fn unknown_event(tag: Seq<char>) -> Seq<char> {
    "unknown variant `"@ + tag + "`, expected `item` or `fail`"@
}

/// The reason given for a `fail` response whose `data` is not a string.
pub open spec fn reason_not_text() -> Seq<char> {
    "invalid type: expected a string"@
}

/// The tag of a parsed response: the string under `event`, if there is one.
pub open spec fn event_of(value: serde_json::Value) -> Option<Seq<char>> {
    match json_member(value, "event"@) {
        Some(tag) => json_string(tag),
        None => None,
    }
}

/// The failure reason of a parsed response: the string under `data`, if
/// there is one.
pub open spec fn reason_of(value: serde_json::Value) -> Option<Seq<char>> {
    match json_member(value, "data"@) {
        Some(data) => json_string(data),
        None => None,
    }
}

/// The envelope that the parts of a response make up, or the reason they make
/// up none. `event` is the tag, `data` the member of that name, and `reason`
/// the characters of `data` where it is a string.
///
/// The tag `item` takes any `data` as its payload; the tag `fail` takes a
/// `data` that is a string as its reason; any other tag is refused.
pub open spec fn envelope_of(
    event: Option<Seq<char>>,
    data: Option<serde_json::Value>,
    reason: Option<Seq<char>>,
) -> Result<OutputView, Seq<char>> {
    match event {
        None => Err(missing_field("event"@)),
        Some(tag) => if tag != "item"@ && tag != "fail"@ {
            Err(unknown_event(tag))
        } else {
            match data {
                None => Err(missing_field("data"@)),
                Some(item) => if tag == "item"@ {
                    Ok(OutputView::Item(item))
                } else {
                    match reason {
                        Some(reason) => Ok(OutputView::Fail(reason)),
                        None => Err(reason_not_text()),
                    }
                },
            }
        },
    }
}

/// The envelope that a parsed response holds, or the reason it holds none.
pub open spec fn decode_value(value: serde_json::Value) -> Result<OutputView, Seq<char>> {
    envelope_of(event_of(value), json_member(value, "data"@), reason_of(value))
}

/// The envelope that a response text holds. A text that is not JSON fails
/// with the parser's message; JSON of another shape fails with one of the
/// reasons above.
pub open spec fn decode_text(text: Seq<char>) -> Result<OutputView, Seq<char>> {
    match json_parse(text) {
        Ok(value) => decode_value(value),
        Err(error) => Err(json_diagnostic(error)),
    }
}

/// What the caller of a request is told for a transport report: a message
/// (`success`) is decoded and gives its payload or its failure; anything else
/// gives `data` itself as the reason.
pub open spec fn outcome(success: bool, data: Seq<char>) -> Result<serde_json::Value, Seq<char>> {
    if success {
        match decode_text(data) {
            Ok(OutputView::Item(item)) => Ok(item),
            Ok(OutputView::Fail(reason)) => Err(reason),
            Err(reason) => Err(reason),
        }
    } else {
        Err(data)
    }
}

/// A decoding result with its text as sequences of characters.
pub open spec fn decoded_view(decoded: ProtoResult<Output>) -> Result<OutputView, Seq<char>> {
    match decoded {
        Ok(output) => Ok(output@),
        Err(reason) => Err(reason@),
    }
}

/// A request's result with its reason as a sequence of characters.
pub open spec fn result_view(result: ProtoResult<serde_json::Value>) -> Result<
    serde_json::Value,
    Seq<char>,
> {
    match result {
        Ok(item) => Ok(item),
        Err(reason) => Err(reason@),
    }
}

fn missing(name: &str) -> (reason: String)
    ensures
        reason@ == missing_field(name@),
{
    let mut reason = String::from_str("missing field `");
    reason.append(name);
    reason.append("`");
    reason
}

fn same(left: &str, right: &str) -> (equal: bool)
    ensures
        equal == (left@ == right@),
{
    let left = left.to_owned();
    let right = right.to_owned();
    left == right
}

/// Frames three JSON texts as one request object.
pub fn frame(service: &str, action: &str, payload: &str) -> (wire: String)
    ensures
        wire@ == framed(service@, action@, payload@),
{
    let mut wire = String::from_str("{\"service\":");
    wire.append(service);
    wire.append(",\"action\":");
    wire.append(action);
    wire.append(",\"payload\":");
    wire.append(payload);
    wire.append("}");
    wire
}

impl Input {
    /// Serialises the envelope into the text that goes on the wire.
    pub fn encode(&self) -> (wire: String)
        ensures
            wire@ == request_text(self.service@, self.action@, self.payload),
    {
        let service = text(&quote(self.service.as_str()));
        let action = text(&quote(self.action.as_str()));
        let payload = text(&self.payload);
        frame(service.as_str(), action.as_str(), payload.as_str())
    }
}

impl Output {
    /// Makes the envelope of the parts of a response: the tag under `event`,
    /// the member under `data`, and the characters of that member where it is
    /// a string.
    pub fn assemble(
        event: Option<&str>,
        data: Option<&serde_json::Value>,
        reason: Option<&str>,
    ) -> (decoded: ProtoResult<Output>)
        ensures
            decoded_view(decoded) == envelope_of(
                text_view(event),
                value_view(data),
                text_view(reason),
            ),
    {
        let tag = match event {
            Some(tag) => tag,
            None => { return Err(missing("event")); },
        };
        let item = same(tag, "item");
        if !item && !same(tag, "fail") {
            let mut unknown = String::from_str("unknown variant `");
            unknown.append(tag);
            unknown.append("`, expected `item` or `fail`");
            return Err(unknown);
        }
        match data {
            None => Err(missing("data")),
            Some(data) => if item {
                Ok(Output::Item(data.clone()))
            } else {
                match reason {
                    Some(reason) => Ok(Output::Fail(reason.to_owned())),
                    None => Err(String::from_str("invalid type: expected a string")),
                }
            },
        }
    }

    /// Reads the envelope out of a parsed response.
    pub fn from_value(value: &serde_json::Value) -> (decoded: ProtoResult<Output>)
        ensures
            decoded_view(decoded) == decode_value(*value),
    {
        let event = match member(value, "event") {
            Some(event) => string(event),
            None => None,
        };
        let data = member(value, "data");
        let reason = match data {
            Some(data) => string(data),
            None => None,
        };
        Output::assemble(event, data, reason)
    }

    /// Parses a response text and reads the envelope out of it.
    pub fn decode(text: &str) -> (decoded: ProtoResult<Output>)
        ensures
            decoded_view(decoded) == decode_text(text@),
    {
        match parse(text) {
            Ok(value) => Output::from_value(&value),
            Err(error) => Err(diagnostic(&error)),
        }
    }

    /// The result that the envelope stands for.
    pub fn into_result(self) -> (result: ProtoResult<serde_json::Value>)
        ensures
            result_view(result) == (match self@ {
                OutputView::Item(item) => Ok::<serde_json::Value, Seq<char>>(item),
                OutputView::Fail(reason) => Err(reason),
            }),
    {
        match self {
            Output::Item(item) => Ok(item),
            Output::Fail(reason) => Err(reason),
        }
    }
}

/// A text that is not JSON never decodes: it fails with the parser's message,
/// and so does the request that it answers.
pub proof fn lemma_malformed_text_fails(text: Seq<char>)
    requires
        json_parse(text) is Err,
    ensures
        decode_text(text) == Err::<OutputView, Seq<char>>(
            json_diagnostic(json_parse(text)->Err_0),
        ),
        outcome(true, text) == Err::<serde_json::Value, Seq<char>>(
            json_diagnostic(json_parse(text)->Err_0),
        ),
{
}

/// A failure that the remote side reports reaches the caller with the reason
/// that the response carries.
pub proof fn lemma_remote_failure_is_passed_on(text: Seq<char>, reason: Seq<char>)
    requires
        decode_text(text) == Ok::<OutputView, Seq<char>>(OutputView::Fail(reason)),
    ensures
        outcome(true, text) == Err::<serde_json::Value, Seq<char>>(reason),
{
}

/// Turns a transport report into the result for the caller: a message
/// (`success`) is decoded, anything else is a failure with `data` as its
/// reason.
pub fn settle(success: bool, data: String) -> (result: ProtoResult<serde_json::Value>)
    ensures
        result_view(result) == outcome(success, data@),
{
    if success {
        match Output::decode(data.as_str()) {
            Ok(output) => output.into_result(),
            Err(reason) => Err(reason),
        }
    } else {
        Err(data)
    }
}

} // verus!
