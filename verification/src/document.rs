//! JSON documents as plain data, and the test that tells on which of them the
//! Parsing Canonical Form is defined.
//!
//! A schema is written down as a JSON document before its canonical form is
//! computed. The canonical form keeps the members of an object whose key is
//! one of a fixed list, drops the others, and descends into what it keeps. It
//! is defined only where everything it descends into is a string, a list or an
//! object, and where each size is an integer. The parser asks one thing more:
//! that no size of a fixed type is beyond what it can multiply by eight.
use vstd::prelude::*;

verus! {

/// A JSON document, as the mathematical value that contracts speak of.
pub enum Document {
    Null,
    Bool(bool),
    /// A number; its value where it is an integer that fits in 64 bits, signed.
    Number(Option<i64>),
    Text(Seq<char>),
    List(Seq<Document>),
    /// The members of an object, each a key and a value, in their order.
    Object(Seq<(Seq<char>, Document)>),
}

/// A JSON document held in memory.
#[derive(Debug, PartialEq, Eq)]
pub enum Json {
    Null,
    Bool(bool),
    /// A number; its value where it is an integer that fits in 64 bits, signed.
    Number(Option<i64>),
    Text(String),
    List(Vec<Json>),
    /// The members of an object, each a key and a value, in their order.
    Object(Vec<(String, Json)>),
}

impl View for Json {
    type V = Document;

    open spec fn view(&self) -> Document {
        self.document()
    }
}

impl Json {
    /// The document that this value holds.
    pub open spec fn document(self) -> Document
        decreases self,
    {
        match self {
            Json::Null => Document::Null,
            Json::Bool(b) => Document::Bool(b),
            Json::Number(n) => Document::Number(n),
            Json::Text(s) => Document::Text(s@),
            Json::List(items) => Document::List(Self::views(items@)),
            Json::Object(members) => Document::Object(Self::member_views(members@)),
        }
    }

    /// The views of the items of a list, in their order.
    pub open spec fn views(items: Seq<Json>) -> Seq<Document>
        decreases items, 1int,
    {
        Seq::new(items.len(), |i: int| Self::view_at(items, i))
    }

    /// The views of the members of an object, in their order.
    pub open spec fn member_views(members: Seq<(String, Json)>) -> Seq<(Seq<char>, Document)>
        decreases members, 1int,
    {
        Seq::new(members.len(), |i: int| Self::member_view_at(members, i))
    }

    /// The view of the item at `i`, for an index inside `items`.
    pub open spec fn view_at(items: Seq<Json>, i: int) -> Document
        decreases items, 0int,
    {
        if 0 <= i < items.len() {
            items[i].document()
        } else {
            Document::Null
        }
    }

    /// The view of the member at `i`, for an index inside `members`.
    pub open spec fn member_view_at(members: Seq<(String, Json)>, i: int) -> (Seq<char>, Document)
        decreases members, 0int,
    {
        if 0 <= i < members.len() {
            (members[i].0@, members[i].1.document())
        } else {
            (Seq::empty(), Document::Null)
        }
    }
}

/// The largest size of a fixed type that the parser can be given: eight times
/// the size still fits in 32 bits, signed.
pub const MAX_FIXED_SIZE: i64 = 268435455;

/// Whether the canonical form reads the member under this key as an integer.
pub open spec fn is_size_key(key: Seq<char>) -> bool {
    key == "size"@ || key == "precision"@ || key == "scale"@
}

/// Whether the canonical form keeps the member under this key and descends
/// into its value.
pub open spec fn is_kept_key(key: Seq<char>) -> bool {
    key == "name"@ || key == "type"@ || key == "fields"@ || key == "symbols"@ || key == "items"@
        || key == "values"@ || key == "order"@
}

/// Whether a value can stand under a key that is read as an integer: it is an
/// integer of 64 bits, and under `size` it is at most `max_size`.
pub open spec fn is_size(key: Seq<char>, value: Document, max_size: int) -> bool {
    value matches Document::Number(Some(n)) && (key == "size"@ ==> n <= max_size)
}

/// Whether a member with this key and value can be read: a size is an
/// integer within the limit, what is kept can be read itself, and anything
/// else is dropped unread.
pub open spec fn member_readable(key: Seq<char>, value: Document, max_size: int) -> bool
    decreases value, 1int,
{
    if is_size_key(key) {
        is_size(key, value, max_size)
    } else if is_kept_key(key) {
        readable(value, max_size)
    } else {
        true
    }
}

/// Whether a document can be read as the canonical form reads it, with no
/// `size` above `max_size`: it is a string, a list of documents that can be
/// read, or an object each of whose members can be read.
pub open spec fn readable(doc: Document, max_size: int) -> bool
    decreases doc, 0int,
{
    match doc {
        Document::Text(_) => true,
        Document::List(items) => forall|i: int|
            0 <= i < items.len() ==> readable(#[trigger] items[i], max_size),
        Document::Object(members) => forall|i: int|
            0 <= i < members.len() ==> member_readable(
                (#[trigger] members[i]).0,
                members[i].1,
                max_size,
            ),
        _ => false,
    }
}

/// Whether the canonical form is defined on a document: whether it can be
/// read, whatever its sizes are.
pub open spec fn canonical_form_defined(doc: Document) -> bool {
    readable(doc, i64::MAX as int)
}

/// Whether the parser can be given a document: whether it can be read, with
/// no `size` above `MAX_FIXED_SIZE`.
pub open spec fn parser_can_read(doc: Document) -> bool {
    readable(doc, MAX_FIXED_SIZE as int)
}

/// Tells whether a key is the given word.
fn key_is(key: &String, word: &str) -> (b: bool)
    ensures
        b == (key@ == word@),
{
    let word = word.to_owned();
    *key == word
}

/// Decides `is_size_key`.
pub fn size_key(key: &String) -> (b: bool)
    ensures
        b == is_size_key(key@),
{
    key_is(key, "size") || key_is(key, "precision") || key_is(key, "scale")
}

/// Decides `is_kept_key`.
pub fn kept_key(key: &String) -> (b: bool)
    ensures
        b == is_kept_key(key@),
{
    key_is(key, "name") || key_is(key, "type") || key_is(key, "fields") || key_is(key, "symbols")
        || key_is(key, "items") || key_is(key, "values") || key_is(key, "order")
}

/// Decides `is_size`.
fn size_fits(key: &String, value: &Json, max_size: i64) -> (b: bool)
    ensures
        b == is_size(key@, value@, max_size as int),
{
    match value {
        Json::Number(Some(n)) => !key_is(key, "size") || *n <= max_size,
        _ => false,
    }
}

/// Decides whether every item of a list can be read.
fn items_readable(items: &Vec<Json>, max_size: i64) -> (b: bool)
    ensures
        b == (forall|i: int|
            0 <= i < items@.len() ==> readable(#[trigger] items@[i]@, max_size as int)),
    decreases items,
{
    let mut k: usize = 0;
    while k < items.len()
        invariant
            k <= items@.len(),
            forall|i: int| 0 <= i < k ==> readable(#[trigger] items@[i]@, max_size as int),
        decreases items@.len() - k,
    {
        if !is_readable_up_to(&items[k], max_size) {
            return false;
        }
        k += 1;
    }
    true
}

/// Decides whether every member of an object can be read.
fn members_readable(members: &Vec<(String, Json)>, max_size: i64) -> (b: bool)
    ensures
        b == (forall|i: int|
            0 <= i < members@.len() ==> member_readable(
                (#[trigger] members@[i]).0@,
                members@[i].1@,
                max_size as int,
            )),
    decreases members,
{
    let mut k: usize = 0;
    while k < members.len()
        invariant
            k <= members@.len(),
            forall|i: int|
                0 <= i < k ==> member_readable(
                    (#[trigger] members@[i]).0@,
                    members@[i].1@,
                    max_size as int,
                ),
        decreases members@.len() - k,
    {
        let member = &members[k];
        let fine = if size_key(&member.0) {
            size_fits(&member.0, &member.1, max_size)
        } else if kept_key(&member.0) {
            is_readable_up_to(&member.1, max_size)
        } else {
            true
        };
        if !fine {
            return false;
        }
        k += 1;
    }
    true
}

/// Decides whether a document can be read, with no `size` above `max_size`.
pub fn is_readable_up_to(doc: &Json, max_size: i64) -> (b: bool)
    ensures
        b == readable(doc@, max_size as int),
    decreases doc,
{
    match doc {
        Json::Text(_) => true,
        Json::List(items) => {
            let all = items_readable(items, max_size);
            proof {
                let views = doc@->List_0;
                assert forall|i: int| 0 <= i < items@.len() implies #[trigger] views[i]
                    == items@[i]@ by {}
                if all {
                    assert forall|i: int| 0 <= i < views.len() implies readable(
                        #[trigger] views[i],
                        max_size as int,
                    ) by {
                        assert(readable(items@[i]@, max_size as int));
                    }
                }
                if readable(doc@, max_size as int) {
                    assert forall|i: int| 0 <= i < items@.len() implies readable(
                        #[trigger] items@[i]@,
                        max_size as int,
                    ) by {
                        assert(readable(views[i], max_size as int));
                    }
                }
            }
            all
        },
        Json::Object(members) => {
            let all = members_readable(members, max_size);
            proof {
                let views = doc@->Object_0;
                assert forall|i: int| 0 <= i < members@.len() implies #[trigger] views[i] == (
                    members@[i].0@,
                    members@[i].1@,
                ) by {}
                if all {
                    assert forall|i: int| 0 <= i < views.len() implies member_readable(
                        (#[trigger] views[i]).0,
                        views[i].1,
                        max_size as int,
                    ) by {
                        assert(member_readable(members@[i].0@, members@[i].1@, max_size as int));
                    }
                }
                if readable(doc@, max_size as int) {
                    assert forall|i: int| 0 <= i < members@.len() implies member_readable(
                        (#[trigger] members@[i]).0@,
                        members@[i].1@,
                        max_size as int,
                    ) by {
                        assert(member_readable(views[i].0, views[i].1, max_size as int));
                    }
                }
            }
            all
        },
        _ => false,
    }
}

/// Decides whether the canonical form is defined on a document.
pub fn defines_canonical_form(doc: &Json) -> (b: bool)
    ensures
        b == canonical_form_defined(doc@),
{
    is_readable_up_to(doc, i64::MAX)
}

/// Decides whether the parser can be given a document.
pub fn fits_the_parser(doc: &Json) -> (b: bool)
    ensures
        b == parser_can_read(doc@),
{
    is_readable_up_to(doc, MAX_FIXED_SIZE)
}

} // verus!
