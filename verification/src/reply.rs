//! The answer that goes back on the bus for a message.

use vstd::prelude::*;
use vstd::string::StringExecFns;
use crate::text::copy_text;

verus! {

/// A failure of no particular kind; a service that did not answer in time.
pub const CODE_GENERIC: i64 = 1;

/// Another service answered with something that is no answer.
pub const CODE_UNEXPECTED_REPLY: i64 = 2;

/// Another service answered with an error.
pub const CODE_DOWNSTREAM: i64 = 3;

/// Another service could not be reached.
pub const CODE_TRANSPORT: i64 = 4;

/// The action is not known.
pub const CODE_UNKNOWN_ACTION: i64 = 99;

/// The message lacks something.
pub const CODE_BAD_INPUT: i64 = 400;

/// The sender may not do this.
pub const CODE_UNAUTHORIZED: i64 = 401;

/// There is no such thing for the sender.
pub const CODE_NOT_FOUND: i64 = 404;

/// The thing is there already.
pub const CODE_DUPLICATE: i64 = 409;

/// Something went wrong within the service.
pub const CODE_INTERNAL: i64 = 500;

/// The collections are being rebuilt.
pub const CODE_REGENERATING: i64 = 503;

/// A reply envelope: `ok` alone on success, a code with an optional error
/// text and an optional message otherwise.
#[derive(Debug, PartialEq, Eq)]
pub struct Reply {
    pub ok: bool,
    pub code: Option<i64>,
    pub err: Option<String>,
    pub message: Option<String>,
}

/// What a reply says, with its texts as sequences of characters.
pub ghost struct ReplySpec {
    pub ok: bool,
    pub code: Option<i64>,
    pub err: Option<Seq<char>>,
    pub message: Option<Seq<char>>,
}

impl DeepView for Reply {
    type V = ReplySpec;

    open spec fn deep_view(&self) -> ReplySpec {
        ReplySpec {
            ok: self.ok,
            code: self.code,
            err: self.err.deep_view(),
            message: self.message.deep_view(),
        }
    }
}

/// The reply of a message that was handled.
pub open spec fn reply_ok() -> ReplySpec {
    ReplySpec { ok: true, code: None, err: None, message: None }
}

/// The reply that refuses a message with a code and an error text.
pub open spec fn reply_err(code: i64, err: Seq<char>) -> ReplySpec {
    ReplySpec { ok: false, code: Some(code), err: Some(err), message: None }
}

impl Reply {
    /// The reply of a message that was handled.
    pub fn ok() -> (r: Reply)
        ensures
            r.deep_view() == reply_ok(),
    {
        Reply { ok: true, code: None, err: None, message: None }
    }

    /// The reply that refuses a message with a code and an error text.
    pub fn error(code: i64, err: &str) -> (r: Reply)
        ensures
            r.deep_view() == reply_err(code, err@),
    {
        Reply { ok: false, code: Some(code), err: Some(String::from_str(err)), message: None }
    }

    /// The reply that hands on what another service answered: its code, its
    /// message and its error text, none of them required.
    pub fn relayed(code: Option<i64>, message: &Option<String>, err: &Option<String>) -> (r: Reply)
        ensures
            r.deep_view() == (ReplySpec {
                ok: false,
                code: code,
                err: err.deep_view(),
                message: message.deep_view(),
            }),
    {
        Reply { ok: false, code: code, err: copy_text(err), message: copy_text(message) }
    }
}

impl Clone for Reply {
    fn clone(&self) -> (r: Reply)
        ensures
            r.deep_view() == self.deep_view(),
    {
        Reply {
            ok: self.ok,
            code: self.code,
            err: copy_text(&self.err),
            message: copy_text(&self.message),
        }
    }
}

} // verus!
