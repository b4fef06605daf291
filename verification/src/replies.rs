//! Handler replies and store lookups shared by the server's decision steps.
//!
//! A handler of the server is a sequence of store calls and checks. Its
//! decisions are written here as a step function: given what the handler
//! has learnt so far, it names the next store call to make or the reply to
//! send. The caller runs the store call, records its outcome, and asks again.
use vstd::prelude::*;
use crate::text::string_of_str;

verus! {

/// A reply of a handler: the HTTP status, the error code (empty for a
/// success), and the message: an i18n key translated for the caller, or
/// literal text.
#[derive(Debug, Clone, PartialEq, Eq)]
pub struct Reply {
    pub status: u16,
    pub error: String,
    pub message: String,
    pub translate: bool,
}

/// A reply as plain values.
pub struct ReplyView {
    pub status: u16,
    pub error: Seq<char>,
    pub message: Seq<char>,
    pub translate: bool,
}

impl View for Reply {
    type V = ReplyView;

    open spec fn view(&self) -> ReplyView {
        ReplyView { status: self.status, error: self.error@, message: self.message@, translate: self.translate }
    }
}

/// A reply whose message is an i18n key.
pub open spec fn keyed(status: u16, error: Seq<char>, key: Seq<char>) -> ReplyView {
    ReplyView { status, error, message: key, translate: true }
}

/// A reply whose message is literal text.
pub open spec fn literal(status: u16, error: Seq<char>, text: Seq<char>) -> ReplyView {
    ReplyView { status, error, message: text, translate: false }
}

/// The reply to a failed store call.
pub open spec fn internal_error() -> ReplyView {
    keyed(500, "internal_error"@, "server.api.error.internal"@)
}

/// A reply whose message is an i18n key.
pub fn keyed_reply(status: u16, error: &str, key: &str) -> (r: Reply)
    ensures
        r@ == keyed(status, error@, key@),
{
    Reply { status, error: string_of_str(error), message: string_of_str(key), translate: true }
}

/// A reply whose message is literal text.
pub fn literal_reply(status: u16, error: &str, text: &str) -> (r: Reply)
    ensures
        r@ == literal(status, error@, text@),
{
    Reply { status, error: string_of_str(error), message: string_of_str(text), translate: false }
}

/// The reply to a failed store call.
pub fn internal_error_reply() -> (r: Reply)
    ensures
        r@ == internal_error(),
{
    keyed_reply(500, "internal_error", "server.api.error.internal")
}

/// The outcome of a store lookup.
#[derive(Debug, Clone, Copy)]
pub enum Lookup<T> {
    Found(T),
    Missing,
    Failed,
}

} // verus!
