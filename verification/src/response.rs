//! Replies of the daemon: a status code and a body, and what they decode to.
//!
//! Every operation reads its reply in the same way. A success status hands the
//! body to the decoder of the operation; any other status becomes an error that
//! carries the status's canonical reason and the body.

use crate::error::{
    consul_error, failure, gives, refuses, utf8_fault, utf8_text, DecodeFailure, Error,
    ErrorView,
};
use crate::json::{json_parsed, parse_json};
use crate::text::{is_white_space, white_space};
use serde_json::Value;
use vstd::prelude::*;
use vstd::std_specs::iter::IteratorSpec;
use vstd::string::*;
use vstd::utf8::{decode_utf8, valid_utf8};

verus! {

broadcast use vstd::string::group_string_axioms;

/// The status code of success.
pub const STATUS_OK: u16 = 200;

/// The status code that tells that a resource does not exist.
pub const STATUS_NOT_FOUND: u16 = 404;

/// A reply as the transport hands it over: the status code and the whole body.
#[derive(Debug)]
pub struct Response {
    pub status: u16,
    pub body: Vec<u8>,
}

/// `text` without the white space at its end.
pub open spec fn trim_end(text: Seq<char>) -> Seq<char>
    decreases text.len(),
{
    if text.len() > 0 && white_space(text.last()) {
        trim_end(text.drop_last())
    } else {
        text
    }
}

/// What a body decodes to as text.
pub open spec fn body_text(body: Seq<u8>) -> Result<Seq<char>, ErrorView> {
    if valid_utf8(body) {
        Ok(decode_utf8(body))
    } else {
        Err(ErrorView::Utf8(utf8_fault(body)))
    }
}

/// What a reply to a pure action decodes to.
pub open spec fn done_reply(status: u16, body: Seq<u8>) -> Result<(), ErrorView> {
    if status == STATUS_OK {
        Ok(())
    } else {
        Err(failure(status, body))
    }
}

/// What a reply that carries text decodes to.
pub open spec fn text_reply(status: u16, body: Seq<u8>) -> Result<Seq<char>, ErrorView> {
    if status == STATUS_OK {
        body_text(body)
    } else {
        Err(failure(status, body))
    }
}

/// What a reply that acknowledges a write decodes to: whether the body, without
/// the white space at its end, reads `true`.
pub open spec fn flag_reply(status: u16, body: Seq<u8>) -> Result<bool, ErrorView> {
    match text_reply(status, body) {
        Ok(text) => Ok(trim_end(text) == "true"@),
        Err(e) => Err(e),
    }
}

/// What a reply that carries JSON decodes to.
pub open spec fn json_reply(status: u16, body: Seq<u8>) -> Result<Value, ErrorView> {
    match text_reply(status, body) {
        Ok(text) => match json_parsed(text) {
            Some(value) => Ok(value),
            None => Err(ErrorView::Decode(DecodeFailure::Json)),
        },
        Err(e) => Err(e),
    }
}

/// Whether `text`, without the white space at its end, reads `true`.
pub fn reads_true(text: &str) -> (r: bool)
    ensures
        r == (trim_end(text@) == "true"@),
{
    let mut chars: Vec<char> = Vec::new();
    let mut rest = text.chars();
    loop
        invariant
            chars@ + rest.remaining() == text@,
            rest.obeys_prophetic_iter_laws(),
            rest.decrease() is Some,
        ensures
            chars@ == text@,
        decreases rest.decrease()->0,
    {
        match rest.next() {
            None => {
                proof {
                    assert(chars@ =~= text@);
                }
                break;
            },
            Some(c) => {
                let ghost before = chars@;
                chars.push(c);
                proof {
                    assert(before.push(c) + rest.remaining() =~= text@);
                }
            },
        }
    }
    let mut end = chars.len();
    proof {
        assert(chars@.take(end as int) =~= chars@);
    }
    while end > 0 && is_white_space(chars[end - 1])
        invariant
            end <= chars.len(),
            trim_end(chars@) == trim_end(chars@.take(end as int)),
        decreases end,
    {
        proof {
            assert(chars@.take(end as int).drop_last() =~= chars@.take(end - 1));
        }
        end -= 1;
    }
    proof {
        reveal_strlit("true");
        let kept = chars@.take(end as int);
        assert(trim_end(kept) == kept);
        if end == 4 && kept[0] == 't' && kept[1] == 'r' && kept[2] == 'u' && kept[3] == 'e' {
            assert(kept =~= "true"@);
        }
    }
    end == 4 && chars[0] == 't' && chars[1] == 'r' && chars[2] == 'u' && chars[3] == 'e'
}

impl Response {
    /// Puts a status code and a body together.
    pub fn new(status: u16, body: Vec<u8>) -> (reply: Response)
        ensures
            reply.status == status,
            reply.body == body,
    {
        Response { status, body }
    }

    /// Reads the reply to a pure action: success, or what the daemon objected.
    pub fn done(&self) -> (out: Result<(), Error>)
        ensures
            match out {
                Ok(()) => gives(done_reply(self.status, self.body@), ()),
                Err(e) => refuses(done_reply(self.status, self.body@), e@),
            },
    {
        if self.status == STATUS_OK {
            Ok(())
        } else {
            Err(consul_error(self))
        }
    }

    /// Reads the body of a successful reply as text.
    pub fn text(&self) -> (out: Result<String, Error>)
        ensures
            match out {
                Ok(text) => gives(text_reply(self.status, self.body@), text@),
                Err(e) => refuses(text_reply(self.status, self.body@), e@),
            },
    {
        if self.status == STATUS_OK {
            match utf8_text(self.body.as_slice()) {
                Ok(text) => Ok(String::from_str(text)),
                Err(e) => Err(Error::Utf8(e)),
            }
        } else {
            Err(consul_error(self))
        }
    }

    /// Reads the acknowledgement of a write: whether the daemon answered `true`.
    pub fn flag(&self) -> (out: Result<bool, Error>)
        ensures
            match out {
                Ok(flag) => gives(flag_reply(self.status, self.body@), flag),
                Err(e) => refuses(flag_reply(self.status, self.body@), e@),
            },
    {
        match self.text() {
            Ok(text) => Ok(reads_true(text.as_str())),
            Err(e) => Err(e),
        }
    }

    /// Reads the body of a successful reply as a JSON value.
    pub fn json(&self) -> (out: Result<Value, Error>)
        ensures
            match out {
                Ok(value) => gives(json_reply(self.status, self.body@), value),
                Err(e) => refuses(json_reply(self.status, self.body@), e@),
            },
    {
        match self.text() {
            Ok(text) => match parse_json(text.as_str()) {
                Some(value) => Ok(value),
                None => Err(Error::Decode(DecodeFailure::Json)),
            },
            Err(e) => Err(e),
        }
    }
}

} // verus!
