//! What the record handlers share: identifiers, and what a store operation
//! came to.
//!
//! The handlers for shelters, resources and disaster records run against a
//! document store that only the caller can reach. The caller performs each
//! operation and tells the handler, in the types of this module, what it
//! came to.

use crate::reply::{refusal, refusal_view, refuse, Refusal, RefusalView, BAD_REQUEST};
use vstd::prelude::*;

verus! {

/// A hexadecimal digit, in either case.
pub open spec fn is_hex_digit(c: char) -> bool {
    ('0' <= c <= '9') || ('a' <= c <= 'f') || ('A' <= c <= 'F')
}

/// The texts that are object identifiers: twenty-four hexadecimal digits.
pub open spec fn is_object_id(s: Seq<char>) -> bool {
    s.len() == 24 && forall|i: int| 0 <= i < s.len() ==> is_hex_digit(#[trigger] s[i])
}

/// Calls `bson::oid::ObjectId::parse_str` and says whether it succeeded.
///
/// Trusted: the parser decodes its argument as hexadecimal, which takes an
/// even number of digits in either case, and accepts exactly twelve bytes.
#[verifier::external_body]
fn parses_as_object_id(s: &str) -> (r: bool)
    ensures
        r == is_object_id(s@),
{
    mongodb::bson::oid::ObjectId::parse_str(s).is_ok()
}

/// Whether `id` is an object identifier.
pub fn valid_object_id(id: &str) -> (r: bool)
    ensures
        r == is_object_id(id@),
{
    parses_as_object_id(id)
}

/// Turns down an identifier that is none, with the text given.
pub fn require_object_id(id: &str, message: &str) -> (r: Result<(), Refusal>)
    ensures
        refusal_view(r) == if is_object_id(id@) {
            None
        } else {
            Some(refusal(BAD_REQUEST, message@))
        },
{
    if valid_object_id(id) {
        Ok(())
    } else {
        Err(refuse(BAD_REQUEST, message))
    }
}

/// What the `id` header of a request holds.
#[derive(Debug)]
pub enum HeaderId {
    /// The request has no such header.
    Missing,
    /// The header's value is not visible text.
    NotText,
    /// The header's value.
    Text(String),
}

/// The identifier a handler works on, or why there is none.
pub open spec fn header_id(header: HeaderId) -> Result<Seq<char>, RefusalView> {
    match header {
        HeaderId::Missing => Err(refusal(BAD_REQUEST, "Missing id header"@)),
        HeaderId::NotText => Err(refusal(BAD_REQUEST, "Invalid id format"@)),
        HeaderId::Text(id) => Ok(id@),
    }
}

/// Takes the identifier from the `id` header.
pub fn id_from_header(header: HeaderId) -> (r: Result<String, Refusal>)
    ensures
        crate::reply::text_or_refusal(r) == header_id(header),
{
    match header {
        HeaderId::Missing => Err(refuse(BAD_REQUEST, "Missing id header")),
        HeaderId::NotText => Err(refuse(BAD_REQUEST, "Invalid id format")),
        HeaderId::Text(id) => Ok(id),
    }
}

/// What an update or a removal came to.
#[derive(Debug)]
pub enum WriteOutcome {
    /// The store ran it; so many documents matched, or were removed.
    Affected(u64),
    /// The store failed, with this description.
    Failed(String),
}

/// What an insertion came to.
#[derive(Debug)]
pub enum InsertOutcome {
    /// The store inserted the document. The identifier it gave is here, in
    /// hexadecimal, if it is an object identifier.
    Inserted(Option<String>),
    /// The store failed, with this description.
    Failed(String),
}

/// What a query for many documents came to.
#[derive(Debug)]
pub enum FetchOutcome<T> {
    /// The documents.
    Fetched(Vec<T>),
    /// The query ran, and reading its results failed, with this description.
    Unreadable(String),
    /// The store failed, with this description.
    Failed(String),
}

/// The part of `path` after its last `/`; all of it where it has none.
pub open spec fn last_segment(path: Seq<char>) -> Seq<char>
    decreases path.len(),
{
    if path.len() == 0 {
        path
    } else if path.last() == '/' {
        Seq::<char>::empty()
    } else {
        last_segment(path.drop_last()).push(path.last())
    }
}

/// Where the last segment of `path` starts.
pub open spec fn segment_start(path: Seq<char>) -> int
    decreases path.len(),
{
    if path.len() == 0 {
        0
    } else if path.last() == '/' {
        path.len() as int
    } else {
        segment_start(path.drop_last())
    }
}

/// The last segment is the tail of the path from where it starts, and holds
/// no `/`.
pub proof fn last_segment_is_a_tail(path: Seq<char>)
    ensures
        0 <= segment_start(path) <= path.len(),
        last_segment(path) == path.subrange(segment_start(path), path.len() as int),
        forall|i: int| segment_start(path) <= i < path.len() ==> path[i] != '/',
        segment_start(path) > 0 ==> path[segment_start(path) - 1] == '/',
    decreases path.len(),
{
    if path.len() == 0 {
        assert(path.subrange(0, 0) =~= path);
    } else if path.last() == '/' {
        assert(path.subrange(path.len() as int, path.len() as int) =~= Seq::<char>::empty());
    } else {
        let front = path.drop_last();
        last_segment_is_a_tail(front);
        let start = segment_start(front);
        assert(path.subrange(start, path.len() as int) =~= front.subrange(
            start,
            front.len() as int,
        ).push(path.last()));
        assert forall|i: int| start <= i < path.len() implies path[i] != '/' by {
            if i < front.len() {
                assert(front[i] == path[i]);
            }
        }
        if start > 0 {
            assert(front[start - 1] == path[start - 1]);
        }
    }
}

/// A position after which the path holds no `/`, and before which stands
/// one, is where the last segment starts.
pub proof fn segment_start_is_unique(path: Seq<char>, start: int)
    requires
        0 <= start <= path.len(),
        forall|i: int| start <= i < path.len() ==> path[i] != '/',
        start > 0 ==> path[start - 1] == '/',
    ensures
        segment_start(path) == start,
    decreases path.len(),
{
    if path.len() == 0 {
    } else if path.last() == '/' {
        if start < path.len() {
            assert(path[path.len() - 1] != '/');
        }
    } else {
        let front = path.drop_last();
        if start == path.len() {
            assert(path[start - 1] == '/');
        } else {
            assert forall|i: int| start <= i < front.len() implies front[i] != '/' by {
                assert(front[i] == path[i]);
            }
            if start > 0 {
                assert(front[start - 1] == path[start - 1]);
            }
            segment_start_is_unique(front, start);
        }
    }
}

/// Takes the last segment of a path.
pub fn path_tail(path: &str) -> (r: String)
    ensures
        r@ == last_segment(path@),
{
    let n: usize = path.unicode_len();
    let mut start: usize = n;
    while start > 0 && path.get_char(start - 1) != '/'
        invariant
            n == path@.len(),
            start <= n,
            forall|i: int| start <= i < n ==> path@[i] != '/',
        decreases start,
    {
        start -= 1;
    }
    proof {
        segment_start_is_unique(path@, start as int);
        last_segment_is_a_tail(path@);
    }
    path.substring_char(start, n).to_owned()
}

} // verus!
