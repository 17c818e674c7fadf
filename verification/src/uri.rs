//! Request URLs: `http://<address>/v1/<group>[/<segment>...][?<query>]`.
//!
//! Parsing, percent-encoding and query syntax are the work of the `url` crate,
//! reached through `hyper`. This module decides which calls are made, in which
//! order, and refuses a URL that would grow past what that crate can hold.

use crate::error::refuses;
use crate::text::byte_len;
use hyper::error::ParseError;
use hyper::Url;
use vstd::prelude::*;
use vstd::string::*;

verus! {

broadcast use vstd::string::group_string_axioms;

#[verifier::external_type_specification]
#[verifier::external_body]
pub struct ExUrl(hyper::Url);

#[verifier::external_type_specification]
#[verifier::external_body]
pub struct ExParseError(hyper::error::ParseError);

/// The largest number of bytes a URL may take: positions inside one are kept in 32 bits.
pub const URL_LIMIT: usize = 0xFFFF_FFFF;

/// The text of a URL, as `Url::as_str` gives it.
pub uninterp spec fn url_text(url: Url) -> Seq<char>;

/// What `Url::parse` makes of a text: the text of the URL it builds, or its error.
pub uninterp spec fn url_parsed(text: Seq<char>) -> Result<Seq<char>, ParseError>;

/// The text of a URL after `segments` were appended to its path, each one percent-encoded.
pub uninterp spec fn text_with_segments(text: Seq<char>, segments: Seq<Seq<char>>) -> Seq<char>;

/// The text of a URL after its query was replaced by `query`.
pub uninterp spec fn text_with_query(text: Seq<char>, query: Seq<char>) -> Seq<char>;

/// The text of a URL after the pair `name=value` was appended to its query, form-encoded.
pub uninterp spec fn text_with_pair(text: Seq<char>, name: Seq<char>, value: Seq<char>) -> Seq<
    char,
>;

/// An upper bound on the bytes that one piece of input can add to a URL: each of
/// its bytes may become a three-byte escape, and one separator goes before it.
pub open spec fn piece_cost(piece: Seq<char>) -> nat {
    3 * byte_len(piece) + 2
}

/// The sum of `piece_cost` over a list of path segments.
pub open spec fn segments_cost(segments: Seq<Seq<char>>) -> nat
    decreases segments.len(),
{
    if segments.len() == 0 {
        0
    } else {
        segments_cost(segments.drop_last()) + piece_cost(segments.last())
    }
}

/// Calls `Url::parse`. Parsing is a function of the text: the URL that comes
/// back has the text that `url_parsed` names for the input, and a failure is the
/// error that it names.
#[verifier::external_body]
pub(crate) fn parse_url(text: &str) -> (r: Result<Url, ParseError>)
    ensures
        match r {
            Ok(url) => url_parsed(text@) == Ok::<Seq<char>, ParseError>(url_text(url)),
            Err(e) => url_parsed(text@) == Err::<Seq<char>, ParseError>(e),
        },
{
    Url::parse(text)
}

/// Calls `Url::as_str`: the serialization of the URL, which `url_text` names.
#[verifier::external_body]
pub(crate) fn url_as_str(url: &Url) -> (r: &str)
    ensures
        r@ == url_text(*url),
{
    url.as_str()
}

/// Calls `Url::path_segments_mut` and, where the URL can be a base,
/// `PathSegmentsMut::extend`: each segment is percent-encoded and appended to
/// the path. A URL that cannot be a base is left as it is.
///
/// A `Url` is its serialization and offsets into it, which parsing the
/// serialization fixes. So the text after the call depends on the text before it
/// and on the segments alone, and `text_with_segments` names it. The crate keeps
/// the offsets in 32 bits and panics when the text outgrows them. A segment adds
/// at most three bytes for each of its bytes, and one slash: the `requires`
/// keeps that within the limit.
#[verifier::external_body]
pub(crate) fn extend_path(url: &mut Url, segments: &Vec<String>)
    requires
        byte_len(url_text(*old(url))) + segments_cost(segments.deep_view()) <= URL_LIMIT,
    ensures
        url_text(*final(url)) == text_with_segments(url_text(*old(url)), segments.deep_view()),
{
    if let Ok(mut path) = url.path_segments_mut() {
        path.extend(segments);
    }
}

/// Calls `Url::set_query` with `Some(query)`: the query, escaped where it must
/// be, replaces the one the URL had. The text after the call depends on the text
/// before it and on the query alone. The new query adds a question mark and at
/// most three bytes for each of its bytes: the `requires` keeps that within what
/// the crate's 32-bit offsets can hold.
#[verifier::external_body]
pub(crate) fn set_query(url: &mut Url, query: &str)
    requires
        byte_len(url_text(*old(url))) + piece_cost(query@) <= URL_LIMIT,
    ensures
        url_text(*final(url)) == text_with_query(url_text(*old(url)), query@),
{
    url.set_query(Some(query));
}

/// Calls `Url::query_pairs_mut` and `Serializer::append_pair`: `name=value` is
/// form-encoded and appended to the query, after `&` where the query already
/// holds something. The text after the call depends on the text before it and on
/// the pair alone. The pair adds two separators and at most three bytes for each
/// byte of the name and of the value: the `requires` keeps that within what the
/// crate's 32-bit offsets can hold.
#[verifier::external_body]
pub(crate) fn append_pair(url: &mut Url, name: &str, value: &str)
    requires
        byte_len(url_text(*old(url))) + piece_cost(name@) + piece_cost(value@) <= URL_LIMIT,
    ensures
        url_text(*final(url)) == text_with_pair(url_text(*old(url)), name@, value@),
{
    url.query_pairs_mut().append_pair(name, value);
}

/// Why a request URL could not be built.
#[derive(Debug)]
pub enum UriError {
    /// The address and resource group do not parse as an absolute URL.
    Parse(ParseError),
    /// The URL would take more bytes than `URL_LIMIT`.
    TooLong,
}

/// What is done to the query of a request URL.
#[derive(Debug)]
pub enum Query {
    /// The URL carries no query.
    Absent,
    /// The query is a bare flag such as `keys` or `recurse`.
    Flag(String),
    /// The query is a list of `name=value` pairs, in order. An empty list leaves
    /// the URL without a query.
    Pairs(Vec<(String, String)>),
}

/// The mathematical content of a `Query`.
pub enum QueryView {
    Absent,
    Flag(Seq<char>),
    Pairs(Seq<(Seq<char>, Seq<char>)>),
}

impl View for Query {
    type V = QueryView;

    open spec fn view(&self) -> QueryView {
        match self {
            Query::Absent => QueryView::Absent,
            Query::Flag(name) => QueryView::Flag(name@),
            Query::Pairs(pairs) => QueryView::Pairs(pairs.deep_view()),
        }
    }
}

/// The URL text after the pairs were appended one by one, or `None` where one of
/// them would not fit.
pub open spec fn text_with_pairs(text: Seq<char>, pairs: Seq<(Seq<char>, Seq<char>)>) -> Option<
    Seq<char>,
>
    decreases pairs.len(),
{
    if pairs.len() == 0 {
        Some(text)
    } else {
        match text_with_pairs(text, pairs.drop_last()) {
            None => None,
            Some(before) => {
                let (name, value) = pairs.last();
                if byte_len(before) + piece_cost(name) + piece_cost(value) <= URL_LIMIT {
                    Some(text_with_pair(before, name, value))
                } else {
                    None
                }
            },
        }
    }
}

/// The URL text after the query was applied, or `None` where it would not fit.
pub open spec fn text_with(text: Seq<char>, query: QueryView) -> Option<Seq<char>> {
    match query {
        QueryView::Absent => Some(text),
        QueryView::Flag(name) => if byte_len(text) + piece_cost(name) <= URL_LIMIT {
            Some(text_with_query(text, name))
        } else {
            None
        },
        QueryView::Pairs(pairs) => text_with_pairs(text, pairs),
    }
}

/// The URL that a request is sent to: `base` is parsed, the segments are
/// appended to its path, and the query is applied.
pub open spec fn request_url(base: Seq<char>, segments: Seq<Seq<char>>, query: QueryView) -> Result<
    Seq<char>,
    UriError,
> {
    match url_parsed(base) {
        Err(e) => Err(UriError::Parse(e)),
        Ok(parsed) => if byte_len(parsed) + segments_cost(segments) <= URL_LIMIT {
            match text_with(text_with_segments(parsed, segments), query) {
                Some(text) => Ok(text),
                None => Err(UriError::TooLong),
            }
        } else {
            Err(UriError::TooLong)
        },
    }
}

/// The cost of the first `n` segments is no more than the cost of all of them.
proof fn lemma_cost_of_prefix(segments: Seq<Seq<char>>, n: int)
    requires
        0 <= n <= segments.len(),
    ensures
        segments_cost(segments.take(n)) <= segments_cost(segments),
    decreases segments.len() - n,
{
    if n == segments.len() {
        assert(segments.take(n) =~= segments);
    } else {
        lemma_cost_of_prefix(segments, n + 1);
        assert(segments.take(n + 1).drop_last() =~= segments.take(n));
    }
}

/// What is left of `room` bytes after a piece is paid for, if it fits.
pub fn pay(room: usize, piece: &str) -> (left: Option<usize>)
    ensures
        match left {
            Some(left) => left + piece_cost(piece@) == room,
            None => piece_cost(piece@) > room,
        },
{
    let len = piece.len();
    if room < 2 {
        None
    } else if len > (room - 2) / 3 {
        None
    } else {
        Some(room - (3 * len + 2))
    }
}

/// What is left of `room` bytes after all the segments are paid for, if they fit.
pub fn pay_segments(room: usize, segments: &Vec<String>) -> (left: Option<usize>)
    ensures
        match left {
            Some(left) => left + segments_cost(segments.deep_view()) == room,
            None => segments_cost(segments.deep_view()) > room,
        },
{
    let mut left = room;
    let mut i: usize = 0;
    while i < segments.len()
        invariant
            i <= segments.len(),
            left + segments_cost(segments.deep_view().take(i as int)) == room,
        decreases segments.len() - i,
    {
        proof {
            let all = segments.deep_view();
            assert(all.take(i + 1).drop_last() =~= all.take(i as int));
            assert(all.take(i + 1).last() == segments[i as int]@);
            lemma_cost_of_prefix(all, i + 1);
        }
        match pay(left, segments[i].as_str()) {
            None => {
                return None;
            },
            Some(rest) => {
                left = rest;
            },
        }
        i += 1;
    }
    proof {
        assert(segments.deep_view().take(i as int) =~= segments.deep_view());
    }
    Some(left)
}

/// Appends the pairs to the query of `url`, one by one, while they fit.
fn append_pairs(url: &mut Url, pairs: &Vec<(String, String)>) -> (fits: bool)
    requires
        byte_len(url_text(*old(url))) <= URL_LIMIT,
    ensures
        match text_with_pairs(url_text(*old(url)), pairs.deep_view()) {
            Some(text) => fits && url_text(*final(url)) == text,
            None => !fits,
        },
{
    let mut i: usize = 0;
    let ghost start = url_text(*url);
    proof {
        assert(pairs.deep_view().take(0) =~= Seq::empty());
    }
    while i < pairs.len()
        invariant
            i <= pairs.len(),
            start == url_text(*old(url)),
            text_with_pairs(start, pairs.deep_view().take(i as int)) == Some(url_text(*url)),
        decreases pairs.len() - i,
    {
        let ghost all = pairs.deep_view();
        proof {
            assert(all.take(i + 1).drop_last() =~= all.take(i as int));
            assert(all.take(i + 1).last() == (pairs[i as int].0@, pairs[i as int].1@));
        }
        let used = url_as_str(url).len();
        let name = pairs[i].0.as_str();
        let value = pairs[i].1.as_str();
        let fits = if used > URL_LIMIT {
            false
        } else {
            match pay(URL_LIMIT - used, name) {
                None => false,
                Some(left) => pay(left, value).is_some(),
            }
        };
        if !fits {
            proof {
                lemma_pairs_stay_refused(start, all, i + 1);
            }
            return false;
        }
        append_pair(url, name, value);
        i += 1;
    }
    proof {
        assert(pairs.deep_view().take(i as int) =~= pairs.deep_view());
    }
    true
}

/// Once a prefix of the pairs does not fit, no longer list of them does.
proof fn lemma_pairs_stay_refused(text: Seq<char>, pairs: Seq<(Seq<char>, Seq<char>)>, n: int)
    requires
        0 <= n <= pairs.len(),
        text_with_pairs(text, pairs.take(n)) is None,
    ensures
        text_with_pairs(text, pairs) is None,
    decreases pairs.len() - n,
{
    if n == pairs.len() {
        assert(pairs.take(n) =~= pairs);
    } else {
        assert(pairs.take(n + 1).drop_last() =~= pairs.take(n));
        lemma_pairs_stay_refused(text, pairs, n + 1);
    }
}

/// A text that is over the limit already takes no pair at all.
proof fn lemma_long_text_takes_no_pair(text: Seq<char>, pairs: Seq<(Seq<char>, Seq<char>)>)
    requires
        byte_len(text) > URL_LIMIT,
    ensures
        pairs.len() == 0 ==> text_with_pairs(text, pairs) == Some(text),
        pairs.len() > 0 ==> text_with_pairs(text, pairs) is None,
{
    if pairs.len() > 0 {
        assert(pairs.take(1).drop_last() =~= Seq::empty());
        assert(text_with_pairs(text, pairs.take(1).drop_last()) == Some(text));
        assert(text_with_pairs(text, pairs.take(1)) is None);
        lemma_pairs_stay_refused(text, pairs, 1);
    }
}

/// Builds the URL of a request: parses `base`, appends the path segments and
/// applies the query.
pub fn build_url(base: &str, segments: &Vec<String>, query: &Query) -> (out: Result<
    String,
    UriError,
>)
    ensures
        match request_url(base@, segments.deep_view(), query@) {
            Ok(text) => out matches Ok(url) && url@ == text,
            Err(e) => refuses(out, e),
        },
{
    let mut url = match parse_url(base) {
        Err(e) => {
            return Err(UriError::Parse(e));
        },
        Ok(url) => url,
    };
    let used = url_as_str(&url).len();
    if used > URL_LIMIT {
        return Err(UriError::TooLong);
    }
    if pay_segments(URL_LIMIT - used, segments).is_none() {
        return Err(UriError::TooLong);
    }
    extend_path(&mut url, segments);
    let used = url_as_str(&url).len();
    let fits = match query {
        Query::Absent => true,
        Query::Flag(name) => {
            if used > URL_LIMIT {
                false
            } else if pay(URL_LIMIT - used, name.as_str()).is_none() {
                false
            } else {
                set_query(&mut url, name.as_str());
                true
            }
        },
        Query::Pairs(pairs) => {
            if used > URL_LIMIT {
                proof {
                    lemma_long_text_takes_no_pair(url_text(url), pairs.deep_view());
                }
                pairs.len() == 0
            } else {
                append_pairs(&mut url, pairs)
            }
        },
    };
    if fits {
        Ok(String::from_str(url_as_str(&url)))
    } else {
        Err(UriError::TooLong)
    }
}

} // verus!
