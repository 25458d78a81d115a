//! The named types of a schema document, and the rule that a schema defines
//! each of them once.
//!
//! In the JSON document of a schema, a record, an enum or a fixed type is an
//! object whose `type` is one of these three words, and its full name is its
//! `namespace`, a dot and its `name`. A later use of the type is the name
//! alone, as a string. So two objects that define the same full name are two
//! definitions of one type, which the canonical form cannot tell apart.
use crate::document::{is_kept_key, kept_key, Document, Json};
use vstd::prelude::*;
use vstd::string::StringExecFns;

verus! {

/// The text under the first member from `start` on that has this key. `None`
/// where no such member is left, and where its value is no text.
pub open spec fn text_member_from(
    members: Seq<(Seq<char>, Document)>,
    key: Seq<char>,
    start: int,
) -> Option<Seq<char>>
    decreases members.len() - start,
{
    if start < 0 || start >= members.len() {
        None
    } else if members[start].0 == key {
        match members[start].1 {
            Document::Text(text) => Some(text),
            _ => None,
        }
    } else {
        text_member_from(members, key, start + 1)
    }
}

/// The text under the first member that has this key.
pub open spec fn text_member(members: Seq<(Seq<char>, Document)>, key: Seq<char>) -> Option<
    Seq<char>,
> {
    text_member_from(members, key, 0)
}

/// Whether a `type` is that of a named type.
pub open spec fn is_named_kind(kind: Seq<char>) -> bool {
    kind == "record"@ || kind == "enum"@ || kind == "fixed"@
}

/// The full name that the members of an object spell: the namespace and a
/// dot, where there is a namespace, and then the name.
pub open spec fn full_name(members: Seq<(Seq<char>, Document)>) -> Seq<char> {
    let name = match text_member(members, "name"@) {
        Some(name) => name,
        None => Seq::empty(),
    };
    match text_member(members, "namespace"@) {
        Some(namespace) => namespace + "."@ + name,
        None => name,
    }
}

/// The full name that an object defines, and `None` for an object that
/// defines no named type.
pub open spec fn defined_name(members: Seq<(Seq<char>, Document)>) -> Option<Seq<char>> {
    match text_member(members, "type"@) {
        Some(kind) => if is_named_kind(kind) {
            Some(full_name(members))
        } else {
            None
        },
        None => None,
    }
}

/// The name that an object defines, as a list of one name or of none.
pub open spec fn own_definition(members: Seq<(Seq<char>, Document)>) -> Seq<Seq<char>> {
    match defined_name(members) {
        Some(name) => seq![name],
        None => Seq::empty(),
    }
}

/// The full names that a document defines, in the order in which the
/// definitions stand in it, each as often as it is defined. Only what the
/// canonical form keeps is searched.
pub open spec fn definitions(doc: Document) -> Seq<Seq<char>>
    decreases doc, 0int,
{
    match doc {
        Document::List(items) => definitions_in_items(items, items.len()),
        Document::Object(members) => own_definition(members) + definitions_in_members(
            members,
            members.len(),
        ),
        _ => Seq::empty(),
    }
}

/// The full names that the first `count` items of a list define.
pub open spec fn definitions_in_items(items: Seq<Document>, count: nat) -> Seq<Seq<char>>
    decreases items, count,
{
    if count == 0 || count > items.len() {
        Seq::empty()
    } else {
        definitions_in_items(items, (count - 1) as nat) + definitions(items[count - 1])
    }
}

/// The full names that the values of the first `count` members of an object
/// define.
pub open spec fn definitions_in_members(
    members: Seq<(Seq<char>, Document)>,
    count: nat,
) -> Seq<Seq<char>>
    decreases members, count,
{
    if count == 0 || count > members.len() {
        Seq::empty()
    } else {
        definitions_in_members(members, (count - 1) as nat) + definitions_under(
            members[count - 1].0,
            members[count - 1].1,
        )
    }
}

/// The full names that the value of a member defines: those of the value
/// where the canonical form keeps the member, none where it drops it.
pub open spec fn definitions_under(key: Seq<char>, value: Document) -> Seq<Seq<char>>
    decreases value, 1int,
{
    if is_kept_key(key) {
        definitions(value)
    } else {
        Seq::empty()
    }
}

/// Whether a document defines no full name twice.
pub open spec fn defines_each_name_once(doc: Document) -> bool {
    definitions(doc).no_duplicates()
}

/// What a list of strings holds.
pub open spec fn texts(names: Seq<String>) -> Seq<Seq<char>> {
    Seq::new(names.len(), |i: int| names[i]@)
}

/// Looks up the text under the first member that has this key.
fn find_text<'a>(members: &'a Vec<(String, Json)>, key: &str) -> (found: Option<&'a String>)
    ensures
        match found {
            Some(text) => text_member(Json::member_views(members@), key@) == Some(text@),
            None => text_member(Json::member_views(members@), key@) is None,
        },
{
    let wanted = key.to_owned();
    let ghost views = Json::member_views(members@);
    let mut k: usize = 0;
    while k < members.len()
        invariant
            k <= members@.len(),
            wanted@ == key@,
            views == Json::member_views(members@),
            text_member(views, key@) == text_member_from(views, key@, k as int),
        decreases members@.len() - k,
    {
        assert(views[k as int] == (members@[k as int].0@, members@[k as int].1@));
        if members[k].0 == wanted {
            return match &members[k].1 {
                Json::Text(text) => Some(text),
                _ => None,
            };
        }
        k += 1;
    }
    None
}

/// Decides `is_named_kind`.
fn named_kind(kind: &String) -> (b: bool)
    ensures
        b == is_named_kind(kind@),
{
    let record = "record".to_owned();
    let enumeration = "enum".to_owned();
    let fixed = "fixed".to_owned();
    *kind == record || *kind == enumeration || *kind == fixed
}

/// Spells the full name of an object.
fn spell_full_name(members: &Vec<(String, Json)>) -> (spelled: String)
    ensures
        spelled@ == full_name(Json::member_views(members@)),
{
    let mut spelled = match find_text(members, "namespace") {
        Some(namespace) => {
            let mut prefix = namespace.clone();
            prefix.append(".");
            prefix
        },
        None => String::new(),
    };
    match find_text(members, "name") {
        Some(name) => spelled.append(name.as_str()),
        None => {},
    }
    proof {
        let views = Json::member_views(members@);
        let name = match text_member(views, "name"@) {
            Some(name) => name,
            None => Seq::empty(),
        };
        assert(Seq::<char>::empty() + name =~= name);
        assert(spelled@ =~= full_name(views));
    }
    spelled
}

/// The name that an object defines, if it defines one.
pub fn name_defined_by(members: &Vec<(String, Json)>) -> (defined: Option<String>)
    ensures
        match defined {
            Some(name) => defined_name(Json::member_views(members@)) == Some(name@),
            None => defined_name(Json::member_views(members@)) is None,
        },
{
    match find_text(members, "type") {
        Some(kind) => if named_kind(kind) {
            Some(spell_full_name(members))
        } else {
            None
        },
        None => None,
    }
}

/// Adds the full names that the items of a list define.
fn collect_from_items(items: &Vec<Json>, names: &mut Vec<String>)
    ensures
        texts(final(names)@) == texts(old(names)@) + definitions_in_items(
            Json::views(items@),
            items@.len(),
        ),
    decreases items,
{
    let ghost before = texts(names@);
    let ghost views = Json::views(items@);
    let mut k: usize = 0;
    while k < items.len()
        invariant
            k <= items@.len(),
            views == Json::views(items@),
            texts(names@) == before + definitions_in_items(views, k as nat),
        decreases items@.len() - k,
    {
        collect_definitions(&items[k], names);
        proof {
            assert(views[k as int] == items@[k as int]@);
            assert(texts(names@) =~= before + definitions_in_items(views, (k + 1) as nat));
        }
        k += 1;
    }
}

/// Adds the full names that the values of the members of an object define.
fn collect_from_members(members: &Vec<(String, Json)>, names: &mut Vec<String>)
    ensures
        texts(final(names)@) == texts(old(names)@) + definitions_in_members(
            Json::member_views(members@),
            members@.len(),
        ),
    decreases members,
{
    let ghost before = texts(names@);
    let ghost views = Json::member_views(members@);
    let mut k: usize = 0;
    while k < members.len()
        invariant
            k <= members@.len(),
            views == Json::member_views(members@),
            texts(names@) == before + definitions_in_members(views, k as nat),
        decreases members@.len() - k,
    {
        let ghost so_far = texts(names@);
        let member = &members[k];
        if kept_key(&member.0) {
            collect_definitions(&member.1, names);
        }
        proof {
            assert(views[k as int] == (members@[k as int].0@, members@[k as int].1@));
            assert(texts(names@) =~= so_far + definitions_under(
                views[k as int].0,
                views[k as int].1,
            ));
            assert(texts(names@) =~= before + definitions_in_members(views, (k + 1) as nat));
        }
        k += 1;
    }
}

/// Adds the full names that a document defines to a list, in their order.
pub fn collect_definitions(doc: &Json, names: &mut Vec<String>)
    ensures
        texts(final(names)@) == texts(old(names)@) + definitions(doc@),
    decreases doc,
{
    let ghost before = texts(names@);
    match doc {
        Json::List(items) => {
            collect_from_items(items, names);
        },
        Json::Object(members) => {
            match name_defined_by(members) {
                Some(name) => {
                    names.push(name);
                },
                None => {},
            }
            assert(texts(names@) =~= before + own_definition(Json::member_views(members@)));
            collect_from_members(members, names);
            assert(texts(names@) =~= before + definitions(doc@));
        },
        _ => {
            assert(texts(names@) =~= before + definitions(doc@));
        },
    }
}

/// Decides whether no two names of a list are the same.
pub fn all_distinct(names: &Vec<String>) -> (b: bool)
    ensures
        b == texts(names@).no_duplicates(),
{
    let mut i: usize = 0;
    while i < names.len()
        invariant
            i <= names@.len(),
            forall|a: int, b: int|
                0 <= a < i && a < b < names@.len() ==> texts(names@)[a] != texts(names@)[b],
        decreases names@.len() - i,
    {
        let mut j: usize = i + 1;
        while j < names.len()
            invariant
                i < j <= names@.len(),
                forall|b: int| i < b < j ==> texts(names@)[i as int] != texts(names@)[b],
            decreases names@.len() - j,
        {
            if names[i] == names[j] {
                assert(texts(names@)[i as int] == texts(names@)[j as int]);
                return false;
            }
            j += 1;
        }
        i += 1;
    }
    true
}

/// Decides whether a document defines no full name twice.
pub fn names_defined_once(doc: &Json) -> (b: bool)
    ensures
        b == defines_each_name_once(doc@),
{
    let mut names: Vec<String> = Vec::new();
    collect_definitions(doc, &mut names);
    assert(texts(names@) =~= definitions(doc@));
    all_distinct(&names)
}

} // verus!
