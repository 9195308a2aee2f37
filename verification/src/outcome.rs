//! Outcomes of a claim attempt and the policy that classifies a reply.

use crate::json::{bool_member, json_bools, json_document, json_strings, parse_document, text_member};
use vstd::prelude::*;
use vstd::string::StringExecFns;

verus! {

/// The four kinds of outcome, without their text.
#[derive(Clone, Copy, Debug, PartialEq, Eq, Structural)]
pub enum OutcomeKind {
    Success,
    AlreadyClaimed,
    Transient,
    TimedOut,
}

/// What one claim attempt, or one whole task, came to.
#[derive(Debug, PartialEq, Eq)]
pub enum ClaimOutcome {
    /// The reward was granted; the text is the service's message.
    Success(String),
    /// The service said definitively that the reward is gone.
    AlreadyClaimed(String),
    /// Nothing definitive: the attempt may be repeated.
    Transient(String),
    /// The deadline passed without a terminal outcome.
    TimedOut,
}

impl View for ClaimOutcome {
    type V = (OutcomeKind, Seq<char>);

    open spec fn view(&self) -> (OutcomeKind, Seq<char>) {
        match self {
            ClaimOutcome::Success(m) => (OutcomeKind::Success, m@),
            ClaimOutcome::AlreadyClaimed(m) => (OutcomeKind::AlreadyClaimed, m@),
            ClaimOutcome::Transient(m) => (OutcomeKind::Transient, m@),
            ClaimOutcome::TimedOut => (OutcomeKind::TimedOut, Seq::empty()),
        }
    }
}

impl Clone for ClaimOutcome {
    fn clone(&self) -> (r: Self)
        ensures
            r@ == self@,
    {
        match self {
            ClaimOutcome::Success(m) => ClaimOutcome::Success(m.clone()),
            ClaimOutcome::AlreadyClaimed(m) => ClaimOutcome::AlreadyClaimed(m.clone()),
            ClaimOutcome::Transient(m) => ClaimOutcome::Transient(m.clone()),
            ClaimOutcome::TimedOut => ClaimOutcome::TimedOut,
        }
    }
}

impl ClaimOutcome {
    /// The kind of this outcome.
    pub fn kind(&self) -> (k: OutcomeKind)
        ensures
            k == self@.0,
    {
        match self {
            ClaimOutcome::Success(_) => OutcomeKind::Success,
            ClaimOutcome::AlreadyClaimed(_) => OutcomeKind::AlreadyClaimed,
            ClaimOutcome::Transient(_) => OutcomeKind::Transient,
            ClaimOutcome::TimedOut => OutcomeKind::TimedOut,
        }
    }
}

/// A reply of the service, as far as the classifier reads it.
#[derive(Debug, PartialEq, Eq)]
pub struct ApiResponse {
    pub response_code: String,
    pub success: bool,
    pub response_msg: String,
}

/// The mathematical content of an [`ApiResponse`].
pub ghost struct ApiResponseView {
    pub response_code: Seq<char>,
    pub success: bool,
    pub response_msg: Seq<char>,
}

impl View for ApiResponse {
    type V = ApiResponseView;

    open spec fn view(&self) -> ApiResponseView {
        ApiResponseView {
            response_code: self.response_code@,
            success: self.success,
            response_msg: self.response_msg@,
        }
    }
}

impl Clone for ApiResponse {
    fn clone(&self) -> (r: Self)
        ensures
            r@ == self@,
    {
        ApiResponse {
            response_code: self.response_code.clone(),
            success: self.success,
            response_msg: self.response_msg.clone(),
        }
    }
}

/// What the transport hands back for one attempt: its own error, or the body
/// of the reply.
#[derive(Debug, PartialEq, Eq)]
pub enum RawResult {
    TransportError(String),
    Body(String),
}

/// The one business code that ends a task as lost. Every other failure code
/// is retried.
#[derive(Debug, PartialEq, Eq)]
pub struct ClassifierPolicy {
    pub terminal_code: String,
}

/// The text of a transient outcome whose reply could not be read.
pub open spec fn malformed_text() -> Seq<char> {
    "响应格式错误"@
}

/// The text of a transient outcome whose request never got a reply.
pub open spec fn transport_failed_text() -> Seq<char> {
    "网络请求失败"@
}

/// The member of a map under `key`, if it has one.
pub open spec fn member<V>(map: Map<Seq<char>, V>, key: Seq<char>) -> Option<V> {
    if map.contains_key(key) {
        Some(map[key])
    } else {
        None
    }
}

/// The reply that three members make: there is none without `success`; a
/// code or a message that is missing is empty.
pub open spec fn reply_from(
    success: Option<bool>,
    code: Option<Seq<char>>,
    message: Option<Seq<char>>,
) -> Option<ApiResponseView> {
    match success {
        None => None,
        Some(s) => Some(
            ApiResponseView {
                response_code: match code {
                    Some(c) => c,
                    None => Seq::empty(),
                },
                success: s,
                response_msg: match message {
                    Some(m) => m,
                    None => Seq::empty(),
                },
            },
        ),
    }
}

/// The first of two optional values that is there.
pub open spec fn first_of<V>(first: Option<V>, second: Option<V>) -> Option<V> {
    match first {
        Some(_) => first,
        None => second,
    }
}

/// The reply that a document holds: its `success` must be a boolean. Its
/// code is the string under `responseCode`, or else the one under `code`;
/// its message the string under `responseMsg`, or else the one under `msg`.
pub open spec fn reply_in(doc: serde_json::Value) -> Option<ApiResponseView> {
    reply_from(
        member(json_bools(doc), "success"@),
        first_of(member(json_strings(doc), "responseCode"@), member(json_strings(doc), "code"@)),
        first_of(member(json_strings(doc), "responseMsg"@), member(json_strings(doc), "msg"@)),
    )
}

/// The view of an optional text.
pub open spec fn text_view(text: Option<String>) -> Option<Seq<char>> {
    match text {
        Some(t) => Some(t@),
        None => None,
    }
}

/// The reply that a body holds, `None` where the body is malformed.
pub open spec fn reply_of(body: Seq<char>) -> Option<ApiResponseView> {
    match json_document(body) {
        Some(doc) => reply_in(doc),
        None => None,
    }
}

/// The outcome of a reply that was read.
pub open spec fn reply_outcome(terminal_code: Seq<char>, reply: ApiResponseView) -> (
    OutcomeKind,
    Seq<char>,
) {
    if reply.success {
        (OutcomeKind::Success, reply.response_msg)
    } else if reply.response_code == terminal_code {
        (OutcomeKind::AlreadyClaimed, reply.response_msg)
    } else {
        (OutcomeKind::Transient, reply.response_msg)
    }
}

/// The outcome of an attempt, from whether the transport succeeded and the
/// reply that was read from its body, if one was.
pub open spec fn attempt_outcome(
    terminal_code: Seq<char>,
    transport_ok: bool,
    reply: Option<ApiResponseView>,
) -> (OutcomeKind, Seq<char>) {
    if !transport_ok {
        (OutcomeKind::Transient, transport_failed_text())
    } else {
        match reply {
            None => (OutcomeKind::Transient, malformed_text()),
            Some(r) => reply_outcome(terminal_code, r),
        }
    }
}

/// The outcome of a raw result: a transport error is transient with the
/// error's text, a body is classified by the reply it holds.
pub open spec fn raw_outcome(terminal_code: Seq<char>, raw: RawResult) -> (
    OutcomeKind,
    Seq<char>,
) {
    match raw {
        RawResult::TransportError(e) => (OutcomeKind::Transient, e@),
        RawResult::Body(b) => attempt_outcome(terminal_code, true, reply_of(b@)),
    }
}

/// The view of an optional reply.
pub open spec fn reply_view(reply: Option<ApiResponse>) -> Option<ApiResponseView> {
    match reply {
        Some(r) => Some(r@),
        None => None,
    }
}

impl ClassifierPolicy {
    /// A policy with the given terminal code.
    pub fn new(terminal_code: String) -> (p: Self)
        ensures
            p.terminal_code@ == terminal_code@,
    {
        ClassifierPolicy { terminal_code }
    }

    /// Classifies a reply that was read: success, the terminal code, or
    /// anything else, which is retried.
    pub fn classify_reply(&self, reply: &ApiResponse) -> (o: ClaimOutcome)
        ensures
            o@ == reply_outcome(self.terminal_code@, reply@),
    {
        if reply.success {
            ClaimOutcome::Success(reply.response_msg.clone())
        } else if reply.response_code == self.terminal_code {
            ClaimOutcome::AlreadyClaimed(reply.response_msg.clone())
        } else {
            ClaimOutcome::Transient(reply.response_msg.clone())
        }
    }

    /// Classifies an attempt from whether the transport succeeded and the
    /// reply read from its body.
    pub fn classify_parsed(&self, transport_ok: bool, reply: Option<ApiResponse>) -> (o:
        ClaimOutcome)
        ensures
            o@ == attempt_outcome(self.terminal_code@, transport_ok, reply_view(reply)),
    {
        if !transport_ok {
            ClaimOutcome::Transient(String::from_str("网络请求失败"))
        } else {
            match reply {
                None => ClaimOutcome::Transient(String::from_str("响应格式错误")),
                Some(r) => self.classify_reply(&r),
            }
        }
    }

    /// Classifies what the transport handed back.
    pub fn classify(&self, raw: &RawResult) -> (o: ClaimOutcome)
        ensures
            o@ == raw_outcome(self.terminal_code@, *raw),
    {
        match raw {
            RawResult::TransportError(e) => ClaimOutcome::Transient(e.clone()),
            RawResult::Body(b) => {
                let reply = read_reply(b.as_str());
                self.classify_parsed(true, reply)
            },
        }
    }
}

/// Makes the reply of the three members that were read from a document:
/// none without `success`; a code or a message that is missing is empty.
pub fn reply_from_members(success: Option<bool>, code: Option<String>, message: Option<String>)
    -> (r: Option<ApiResponse>)
    ensures
        reply_view(r) == reply_from(success, text_view(code), text_view(message)),
{
    match success {
        None => None,
        Some(success) => {
            let response_code = match code {
                Some(c) => c,
                None => String::new(),
            };
            let response_msg = match message {
                Some(m) => m,
                None => String::new(),
            };
            Some(ApiResponse { response_code, success, response_msg })
        },
    }
}

/// The first of two optional texts that is there.
pub fn first_text(first: Option<String>, second: Option<String>) -> (r: Option<String>)
    ensures
        text_view(r) == first_of(text_view(first), text_view(second)),
{
    match first {
        Some(t) => Some(t),
        None => second,
    }
}

/// Reads the reply that a body holds: `success`, the code under
/// `responseCode` or else under `code`, and the message under `responseMsg`
/// or else under `msg`.
pub fn read_reply(body: &str) -> (r: Option<ApiResponse>)
    ensures
        reply_view(r) == reply_of(body@),
{
    match parse_document(body) {
        None => None,
        Some(doc) => reply_from_members(
            bool_member(&doc, "success"),
            first_text(text_member(&doc, "responseCode"), text_member(&doc, "code")),
            first_text(text_member(&doc, "responseMsg"), text_member(&doc, "msg")),
        ),
    }
}

} // verus!
