//! The key-value endpoints: reading, writing and removing entries of the
//! daemon's hierarchical store.
//!
//! A key is a path: it is split at each `/`, and each piece becomes one segment
//! of the request URL. The daemon sends values as base64 inside a JSON envelope.

use crate::error::{
    consul_error, failure, gives, refuses, utf8_fault, utf8_text, DecodeFailure, Error,
    ErrorView,
};
use crate::json::{
    get_natural, get_optional_text, get_text, json_shape, open_json, optional_text, read_texts,
    required_natural, required_text, texts_of, Members, Node, Shape,
};
use crate::response::{json_reply, Response, STATUS_NOT_FOUND, STATUS_OK};
use crate::text::{byte_len, pieces, split_key};
use crate::uri::{Query, QueryView};
use crate::{request_for, yields, Consul, Method, Request, RequestView};
use serde_json::Value;
use vstd::prelude::*;
use vstd::slice::slice_to_vec;
use vstd::string::*;
use vstd::utf8::{decode_utf8, encode_utf8, valid_utf8};

verus! {

broadcast use vstd::string::group_string_axioms;

#[verifier::external_type_specification]
#[verifier::external_body]
pub struct ExBase64Error(base64::DecodeError);

/// The bytes that a text is the standard base64 notation of, where it is one.
pub uninterp spec fn base64_decoded(text: Seq<char>) -> Option<Seq<u8>>;

/// Calls `base64::decode`: the bytes that the text encodes in the standard
/// alphabet, or the decoder's error. The bytes depend on the text alone, and
/// `base64_decoded` names them. The crate sizes its buffer by four times the
/// length of the input, which the `requires` keeps from overflowing.
#[verifier::external_body]
pub(crate) fn base64_decode(text: &str) -> (r: Result<Vec<u8>, base64::DecodeError>)
    requires
        4 * byte_len(text@) <= usize::MAX,
    ensures
        match r {
            Ok(bytes) => base64_decoded(text@) == Some(bytes@),
            Err(_) => base64_decoded(text@) is None,
        },
{
    base64::decode(text)
}

/// An entry of the store as the daemon reports it.
#[derive(Debug, Clone)]
pub struct KVEntry {
    pub create_index: u64,
    pub modify_index: u64,
    pub lock_index: u64,
    pub key: String,
    pub flags: u64,
    pub value: Vec<u8>,
    pub session: Option<String>,
}

/// The mathematical content of a `KVEntry`.
pub struct KVEntryView {
    pub create_index: u64,
    pub modify_index: u64,
    pub lock_index: u64,
    pub key: Seq<char>,
    pub flags: u64,
    pub value: Seq<u8>,
    pub session: Option<Seq<char>>,
}

impl View for KVEntry {
    type V = KVEntryView;

    open spec fn view(&self) -> KVEntryView {
        KVEntryView {
            create_index: self.create_index,
            modify_index: self.modify_index,
            lock_index: self.lock_index,
            key: self.key@,
            flags: self.flags,
            value: self.value@,
            session: self.session.deep_view(),
        }
    }
}

impl DeepView for KVEntry {
    type V = KVEntryView;

    open spec fn deep_view(&self) -> KVEntryView {
        self.view()
    }
}

/// The bytes of a value that the daemon sent as base64, where the text is
/// base64 and short enough to be decoded.
pub open spec fn value_bytes(encoded: Seq<char>) -> Option<Seq<u8>> {
    if 4 * byte_len(encoded) <= usize::MAX {
        base64_decoded(encoded)
    } else {
        None
    }
}

/// The entry that an object describes. Members with other names are passed over.
pub open spec fn entry_in(object: Map<Seq<char>, Value>) -> Result<KVEntryView, DecodeFailure> {
    match (
        required_natural(object, "CreateIndex"@),
        required_natural(object, "ModifyIndex"@),
        required_natural(object, "LockIndex"@),
        required_text(object, "Key"@),
        required_natural(object, "Flags"@),
        required_text(object, "Value"@),
        optional_text(object, "Session"@),
    ) {
        (
            Some(create_index),
            Some(modify_index),
            Some(lock_index),
            Some(key),
            Some(flags),
            Some(encoded),
            Some(session),
        ) => match value_bytes(encoded) {
            Some(value) => Ok(
                KVEntryView { create_index, modify_index, lock_index, key, flags, value, session },
            ),
            None => Err(DecodeFailure::Base64),
        },
        _ => Err(DecodeFailure::Schema),
    }
}

/// The entry that a JSON value describes.
pub open spec fn entry_of(value: Value) -> Result<KVEntryView, DecodeFailure> {
    match json_shape(value) {
        Shape::Object(object) => entry_in(object),
        _ => Err(DecodeFailure::Schema),
    }
}

/// The entry that the body of a read holds: the body is a list of just one entry.
pub open spec fn single_entry_of(value: Value) -> Result<KVEntryView, DecodeFailure> {
    match json_shape(value) {
        Shape::Array(items) => if items.len() == 1 {
            entry_of(items[0])
        } else {
            Err(DecodeFailure::Schema)
        },
        _ => Err(DecodeFailure::Schema),
    }
}

/// What the reply to a read of one key decodes to. That the key is not there is
/// no error: the entry is absent.
pub open spec fn entry_reply(status: u16, body: Seq<u8>) -> Result<Option<KVEntryView>, ErrorView> {
    if status == STATUS_NOT_FOUND {
        Ok(None)
    } else {
        match json_reply(status, body) {
            Ok(value) => match single_entry_of(value) {
                Ok(entry) => Ok(Some(entry)),
                Err(e) => Err(ErrorView::Decode(e)),
            },
            Err(e) => Err(e),
        }
    }
}

/// What the reply to a read decodes to when the value is wanted as bytes.
pub open spec fn bytes_reply(status: u16, body: Seq<u8>) -> Result<Option<Seq<u8>>, ErrorView> {
    match entry_reply(status, body) {
        Ok(Some(entry)) => Ok(Some(entry.value)),
        Ok(None) => Ok(None),
        Err(e) => Err(e),
    }
}

/// What the reply to a read decodes to when the value is wanted as text.
pub open spec fn value_reply(status: u16, body: Seq<u8>) -> Result<Option<Seq<char>>, ErrorView> {
    match entry_reply(status, body) {
        Ok(Some(entry)) => if valid_utf8(entry.value) {
            Ok(Some(decode_utf8(entry.value)))
        } else {
            Err(ErrorView::Utf8(utf8_fault(entry.value)))
        },
        Ok(None) => Ok(None),
        Err(e) => Err(e),
    }
}

/// What the reply to a read decodes to when only the presence of the key is asked.
pub open spec fn presence_reply(status: u16, body: Seq<u8>) -> Result<bool, ErrorView> {
    if status == STATUS_NOT_FOUND {
        Ok(false)
    } else if status == STATUS_OK {
        Ok(true)
    } else {
        Err(failure(status, body))
    }
}

/// What the reply to a listing of keys decodes to. Here a prefix under which
/// there is nothing is an error like any other failure status.
pub open spec fn keys_reply(status: u16, body: Seq<u8>) -> Result<Seq<Seq<char>>, ErrorView> {
    match json_reply(status, body) {
        Ok(value) => match texts_of(value) {
            Some(keys) => Ok(keys),
            None => Err(ErrorView::Decode(DecodeFailure::Schema)),
        },
        Err(e) => Err(e),
    }
}

/// The request of an operation on one key or prefix: a request to the `kv`
/// group with the pieces of the key as path segments.
pub open spec fn key_request(
    address: Seq<char>,
    method: Method,
    key: Seq<char>,
    query: QueryView,
) -> Result<RequestView, ErrorView> {
    request_for(address, method, "kv"@, pieces(key, '/'), query)
}

/// The request that a write sends: the request for the key, with the value as its body.
pub open spec fn write_request(address: Seq<char>, key: Seq<char>, value: Seq<u8>) -> Result<
    RequestView,
    ErrorView,
> {
    match key_request(address, Method::Put, key, QueryView::Absent) {
        Ok(request) => Ok(RequestView { body: Some(value), ..request }),
        Err(e) => Err(e),
    }
}

/// A value read as bytes and the same value read as text agree: the text is
/// what the bytes decode to, and reading as text fails with a UTF-8 error
/// exactly when the bytes are no UTF-8. An absent key is absent either way.
pub proof fn lemma_text_agrees_with_bytes(status: u16, body: Seq<u8>)
    ensures
        match bytes_reply(status, body) {
            Ok(Some(bytes)) => if valid_utf8(bytes) {
                gives(value_reply(status, body), Some(decode_utf8(bytes)))
            } else {
                refuses(value_reply(status, body), ErrorView::Utf8(utf8_fault(bytes)))
            },
            Ok(None) => gives(value_reply(status, body), None),
            Err(e) => refuses(value_reply(status, body), e),
        },
{
}

/// When the daemon answers "not found", a read of one key gives an absent
/// value, whichever way the value is asked for, and no error; a listing of keys
/// gives the error that the status and the body stand for.
pub proof fn lemma_absent_key_and_absent_prefix(body: Seq<u8>)
    ensures
        gives(entry_reply(STATUS_NOT_FOUND, body), None),
        gives(bytes_reply(STATUS_NOT_FOUND, body), None),
        gives(value_reply(STATUS_NOT_FOUND, body), None),
        gives(presence_reply(STATUS_NOT_FOUND, body), false),
        refuses(keys_reply(STATUS_NOT_FOUND, body), failure(STATUS_NOT_FOUND, body)),
{
}

impl KVEntry {
    /// Reads an entry from the JSON value that describes it.
    pub fn from_json(value: &Value) -> (out: Result<KVEntry, DecodeFailure>)
        ensures
            match out {
                Ok(entry) => gives(entry_of(*value), entry@),
                Err(e) => refuses(entry_of(*value), e),
            },
    {
        let Some(members) = Members::of(value) else {
            return Err(DecodeFailure::Schema);
        };
        let create_index = get_natural(&members, "CreateIndex");
        let modify_index = get_natural(&members, "ModifyIndex");
        let lock_index = get_natural(&members, "LockIndex");
        let key = get_text(&members, "Key");
        let flags = get_natural(&members, "Flags");
        let encoded = get_text(&members, "Value");
        let session = get_optional_text(&members, "Session");
        match (create_index, modify_index, lock_index, key, flags, encoded, session) {
            (
                Some(create_index),
                Some(modify_index),
                Some(lock_index),
                Some(key),
                Some(flags),
                Some(encoded),
                Some(session),
            ) => {
                if encoded.as_str().len() > usize::MAX / 4 {
                    return Err(DecodeFailure::Base64);
                }
                match base64_decode(encoded.as_str()) {
                    Ok(value) => Ok(
                        KVEntry {
                            create_index,
                            modify_index,
                            lock_index,
                            key,
                            flags,
                            value,
                            session,
                        },
                    ),
                    Err(_) => Err(DecodeFailure::Base64),
                }
            },
            _ => Err(DecodeFailure::Schema),
        }
    }

    /// Reads the one entry that the body of a read holds.
    pub fn single_from_json(value: &Value) -> (out: Result<KVEntry, DecodeFailure>)
        ensures
            match out {
                Ok(entry) => gives(single_entry_of(*value), entry@),
                Err(e) => refuses(single_entry_of(*value), e),
            },
    {
        match open_json(value) {
            Node::Array(items) => if items.len() == 1 {
                KVEntry::from_json(&items[0])
            } else {
                Err(DecodeFailure::Schema)
            },
            _ => Err(DecodeFailure::Schema),
        }
    }
}

/// The operations on the key-value store. Each one builds the request to send;
/// the reply is read by the function that the operation names.
pub struct KeyValue<'a> {
    consul: &'a Consul,
}

impl<'a> View for KeyValue<'a> {
    type V = Seq<char>;

    /// The address of the daemon.
    closed spec fn view(&self) -> Seq<char> {
        self.consul@
    }
}

impl<'a> KeyValue<'a> {
    /// The key-value operations of a client.
    pub fn new(consul: &'a Consul) -> (kv: Self)
        ensures
            kv@ == consul@,
    {
        KeyValue { consul }
    }

    /// Asks for the value of `key` as text. The reply is read by `get_reply`.
    pub fn get(&self, key: &str) -> (out: Result<Request, Error>)
        ensures
            yields(out, key_request(self@, Method::Get, key@, QueryView::Absent)),
    {
        self.consul._request2(Method::Get, "kv", &split_key(key))
    }

    /// Asks for the value of `key` as bytes. The reply is read by `get_bytes_reply`.
    pub fn get_bytes(&self, key: &str) -> (out: Result<Request, Error>)
        ensures
            yields(out, key_request(self@, Method::Get, key@, QueryView::Absent)),
    {
        self.consul._request2(Method::Get, "kv", &split_key(key))
    }

    /// Asks for the entry of `key`. The reply is read by `get_entry_reply`.
    pub fn get_entry(&self, key: &str) -> (out: Result<Request, Error>)
        ensures
            yields(out, key_request(self@, Method::Get, key@, QueryView::Absent)),
    {
        self.consul._request2(Method::Get, "kv", &split_key(key))
    }

    /// Asks whether `key` is there. The reply is read by `contains_key_reply`.
    pub fn contains_key(&self, key: &str) -> (out: Result<Request, Error>)
        ensures
            yields(out, key_request(self@, Method::Get, key@, QueryView::Absent)),
    {
        self.consul._request2(Method::Get, "kv", &split_key(key))
    }

    /// Asks for the keys under `prefix`: the same path as a read, with the
    /// query flag `keys`. The reply is read by `keys_reply`.
    pub fn keys(&self, prefix: &str) -> (out: Result<Request, Error>)
        ensures
            yields(out, key_request(self@, Method::Get, prefix@, QueryView::Flag("keys"@))),
    {
        self.consul._request3(
            Method::Get,
            "kv",
            &split_key(prefix),
            &Query::Flag(String::from_str("keys")),
        )
    }

    /// Writes a text under `key`. The reply is read by `Response::flag`.
    pub fn insert(&self, key: &str, value: &str) -> (out: Result<Request, Error>)
        ensures
            yields(out, write_request(self@, key@, encode_utf8(value@))),
    {
        self.insert_bytes(key, value.as_bytes())
    }

    /// Writes bytes under `key`: they are the body of the request, as they
    /// are. The reply is read by `Response::flag`.
    pub fn insert_bytes(&self, key: &str, value: &[u8]) -> (out: Result<Request, Error>)
        ensures
            yields(out, write_request(self@, key@, value@)),
    {
        match self.consul._request2(Method::Put, "kv", &split_key(key)) {
            Ok(request) => Ok(request.body(slice_to_vec(value))),
            Err(e) => Err(e),
        }
    }

    /// Removes `key`. The reply is read by `Response::done`.
    pub fn remove(&self, key: &str) -> (out: Result<Request, Error>)
        ensures
            yields(out, key_request(self@, Method::Delete, key@, QueryView::Absent)),
    {
        self.consul._request2(Method::Delete, "kv", &split_key(key))
    }

    /// Removes all keys under `prefix`: the same path as for one key, with the
    /// query flag `recurse`. The reply is read by `Response::done`.
    pub fn remove_tree(&self, prefix: &str) -> (out: Result<Request, Error>)
        ensures
            yields(out, key_request(self@, Method::Delete, prefix@, QueryView::Flag("recurse"@))),
    {
        self.consul._request3(
            Method::Delete,
            "kv",
            &split_key(prefix),
            &Query::Flag(String::from_str("recurse")),
        )
    }

    /// Reads the reply to `get_entry`: the entry, or `None` where the daemon
    /// answered that the key is not there.
    pub fn get_entry_reply(reply: &Response) -> (out: Result<Option<KVEntry>, Error>)
        ensures
            match out {
                Ok(entry) => gives(entry_reply(reply.status, reply.body@), entry.deep_view()),
                Err(e) => refuses(entry_reply(reply.status, reply.body@), e@),
            },
    {
        if reply.status == STATUS_NOT_FOUND {
            return Ok(None);
        }
        match reply.json() {
            Ok(value) => match KVEntry::single_from_json(&value) {
                Ok(entry) => Ok(Some(entry)),
                Err(e) => Err(Error::Decode(e)),
            },
            Err(e) => Err(e),
        }
    }

    /// Reads the reply to `get_bytes`: the value as the daemon stored it, byte
    /// for byte, or `None` where the key is not there.
    pub fn get_bytes_reply(reply: &Response) -> (out: Result<Option<Vec<u8>>, Error>)
        ensures
            match out {
                Ok(Some(value)) => gives(bytes_reply(reply.status, reply.body@), Some(value@)),
                Ok(None) => gives(bytes_reply(reply.status, reply.body@), None),
                Err(e) => refuses(bytes_reply(reply.status, reply.body@), e@),
            },
    {
        match KeyValue::get_entry_reply(reply) {
            Ok(Some(entry)) => Ok(Some(entry.value)),
            Ok(None) => Ok(None),
            Err(e) => Err(e),
        }
    }

    /// Reads the reply to `get`: the value as text, `None` where the key is not
    /// there, and a UTF-8 error where the value is no text.
    pub fn get_reply(reply: &Response) -> (out: Result<Option<String>, Error>)
        ensures
            match out {
                Ok(value) => gives(value_reply(reply.status, reply.body@), value.deep_view()),
                Err(e) => refuses(value_reply(reply.status, reply.body@), e@),
            },
    {
        match KeyValue::get_entry_reply(reply) {
            Ok(Some(entry)) => match utf8_text(entry.value.as_slice()) {
                Ok(text) => Ok(Some(String::from_str(text))),
                Err(e) => Err(Error::Utf8(e)),
            },
            Ok(None) => Ok(None),
            Err(e) => Err(e),
        }
    }

    /// Reads the reply to `contains_key`: only the status counts.
    pub fn contains_key_reply(reply: &Response) -> (out: Result<bool, Error>)
        ensures
            match out {
                Ok(found) => gives(presence_reply(reply.status, reply.body@), found),
                Err(e) => refuses(presence_reply(reply.status, reply.body@), e@),
            },
    {
        if reply.status == STATUS_NOT_FOUND {
            Ok(false)
        } else if reply.status == STATUS_OK {
            Ok(true)
        } else {
            Err(consul_error(reply))
        }
    }

    /// Reads the reply to `keys`: the keys, as the daemon lists them.
    pub fn keys_reply(reply: &Response) -> (out: Result<Vec<String>, Error>)
        ensures
            match out {
                Ok(keys) => gives(keys_reply(reply.status, reply.body@), keys.deep_view()),
                Err(e) => refuses(keys_reply(reply.status, reply.body@), e@),
            },
    {
        match reply.json() {
            Ok(value) => match read_texts(&value) {
                Some(keys) => Ok(keys),
                None => Err(Error::Decode(DecodeFailure::Schema)),
            },
            Err(e) => Err(e),
        }
    }
}

} // verus!
