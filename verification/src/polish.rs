//! The text polisher: credential check, request construction, and the
//! interpretation of the remote service's reply, with its fallback rules.
//!
//! The remote call itself is network work and is made by the surrounding
//! process; what came back is handed in as a [`RemoteReply`], and
//! [`interpret_reply`] decides, for every possible reply, what text the
//! pipeline goes on to inject.

use vstd::prelude::*;

use crate::json::candidate_text_of;
use crate::json::extract_candidate_text;
use crate::text::chars_to_string;
use crate::text::str_chars;
use crate::text::trim_chars;
use crate::text::trim_spec;
use crate::text::blank;
use vstd::string::StringExecFns;
use vstd::utf8::encode_utf8;

verus! {

/// A credential shorter than this many bytes is treated as missing and the
/// pipeline aborts before any network call.
pub const MIN_CREDENTIAL_BYTES: usize = 6;

/// A credential is accepted when its UTF-8 length reaches the minimal sanity
/// threshold.
pub open spec fn credential_ok(key: Seq<char>) -> bool {
    encode_utf8(key).len() >= MIN_CREDENTIAL_BYTES
}

pub fn credential_accepted(key: &str) -> (r: bool)
    ensures
        r == credential_ok(key@),
{
    let b = key.as_bytes();
    b.len() >= MIN_CREDENTIAL_BYTES
}

/// The endpoint of the polishing service, with the credential as its query
/// parameter.
pub open spec fn url_spec(credential: Seq<char>) -> Seq<char> {
    "https://generativelanguage.googleapis.com/v1beta/models/gemini-2.5-flash:generateContent?key="@
        + credential
}

pub fn build_url(credential: &str) -> (r: String)
    ensures
        r@ == url_spec(credential@),
{
    let head: String =
        "https://generativelanguage.googleapis.com/v1beta/models/gemini-2.5-flash:generateContent?key=".to_owned();
    head.concat(credential)
}

/// The prompt sent to the remote service: a fixed instruction followed by
/// the raw text.
pub open spec fn prompt_spec(raw: Seq<char>) -> Seq<char> {
    "Fix grammar and remove fillers. Output ONLY the polished text:\n\n"@ + raw
}

pub fn build_prompt(raw: &str) -> (r: String)
    ensures
        r@ == prompt_spec(raw@),
{
    let head: String = "Fix grammar and remove fillers. Output ONLY the polished text:\n\n".to_owned();
    head.concat(raw)
}

/// What the attempt to reach the remote service came to: either no response
/// at all, or a response with its success flag and body text.
pub enum RemoteReply {
    /// The request never produced a response (DNS, connection or transport
    /// failure).
    TransportFailure,
    /// A response arrived; `success` is whether its status class was
    /// success, `body` is its text.
    Response { success: bool, body: String },
}

/// The ghost image of a [`RemoteReply`].
pub enum ReplyView {
    TransportFailure,
    Response { success: bool, body: Seq<char> },
}

impl View for RemoteReply {
    type V = ReplyView;

    open spec fn view(&self) -> ReplyView {
        match self {
            RemoteReply::TransportFailure => ReplyView::TransportFailure,
            RemoteReply::Response { success, body } => ReplyView::Response {
                success: *success,
                body: body@,
            },
        }
    }
}

/// Why the pipeline fell back to the raw text instead of a polished result.
#[derive(Clone, Copy, PartialEq, Eq, Structural, Debug)]
pub enum FallbackReason {
    /// The request never reached the service.
    Network,
    /// The service answered with a non-success status.
    RemoteStatus,
    /// The response body did not hold the expected nested text field.
    MalformedBody,
    /// The response held a text field that was empty once trimmed.
    EmptyPolish,
}

/// What the polisher settles on: a cleaned string, or the raw text
/// unchanged, with the reason the cleaned one could not be had.
pub enum PolishOutcome {
    Polished(String),
    Fallback(String, FallbackReason),
}

/// The ghost image of a [`PolishOutcome`].
pub enum OutcomeView {
    Polished(Seq<char>),
    Fallback(Seq<char>, FallbackReason),
}

impl View for PolishOutcome {
    type V = OutcomeView;

    open spec fn view(&self) -> OutcomeView {
        match self {
            PolishOutcome::Polished(t) => OutcomeView::Polished(t@),
            PolishOutcome::Fallback(t, r) => OutcomeView::Fallback(t@, *r),
        }
    }
}

/// The text a [`PolishOutcome`] carries, polished or not.
pub open spec fn outcome_text(o: OutcomeView) -> Seq<char> {
    match o {
        OutcomeView::Polished(t) => t,
        OutcomeView::Fallback(t, _) => t,
    }
}

/// What the polisher decides for every raw text and reply: the trimmed
/// candidate text of a successful, well-formed, non-blank reply, and the raw
/// text unchanged in every other case.
pub open spec fn polish_model(raw: Seq<char>, reply: ReplyView) -> OutcomeView {
    match reply {
        ReplyView::TransportFailure => OutcomeView::Fallback(raw, FallbackReason::Network),
        ReplyView::Response { success, body } => {
            if !success {
                OutcomeView::Fallback(raw, FallbackReason::RemoteStatus)
            } else {
                match candidate_text_of(body) {
                    Option::None => OutcomeView::Fallback(raw, FallbackReason::MalformedBody),
                    Option::Some(t) => {
                        if trim_spec(t).len() == 0 {
                            OutcomeView::Fallback(raw, FallbackReason::EmptyPolish)
                        } else {
                            OutcomeView::Polished(trim_spec(t))
                        }
                    },
                }
            }
        },
    }
}

/// Turn the remote service's reply into the string the pipeline will inject:
/// the trimmed candidate text on success, the raw text unchanged on any
/// failure.
pub fn interpret_reply(raw: &str, reply: &RemoteReply) -> (o: PolishOutcome)
    ensures
        o@ == polish_model(raw@, reply@),
{
    match reply {
        RemoteReply::TransportFailure => {
            PolishOutcome::Fallback(raw.to_owned(), FallbackReason::Network)
        },
        RemoteReply::Response { success, body } => {
            if !*success {
                PolishOutcome::Fallback(raw.to_owned(), FallbackReason::RemoteStatus)
            } else {
                match extract_candidate_text(body.as_str()) {
                    Option::None => {
                        PolishOutcome::Fallback(raw.to_owned(), FallbackReason::MalformedBody)
                    },
                    Option::Some(t) => {
                        let tv = str_chars(t.as_str());
                        let tt = trim_chars(&tv);
                        if tt.len() == 0 {
                            PolishOutcome::Fallback(raw.to_owned(), FallbackReason::EmptyPolish)
                        } else {
                            PolishOutcome::Polished(chars_to_string(&tt))
                        }
                    },
                }
            }
        },
    }
}

/// Law: the polisher never hands the pipeline a blank string to inject. For
/// every reply, if the raw text is not blank, the outcome's text is
/// non-empty.
pub proof fn lemma_polish_text_never_empty(raw: Seq<char>, reply: ReplyView)
    requires
        !blank(raw),
    ensures
        outcome_text(polish_model(raw, reply)).len() > 0,
{
    assert(raw.len() > 0);
}

} // verus!
