//! From a `serde_json::Value` to a document of this library, one layer at a
//! time.
//!
//! A `serde_json::Value` is opaque here. What can be had of it is its outermost
//! layer: which kind of value it is, and for a list or an object the values
//! inside it, opaque in their turn. The document of a value is what comes of
//! taking layer after layer, down to the values that hold no others.
use crate::avro::{json_depth, json_layer, layer_of};
use crate::document::{Document, Json};
use serde_json::Value;
use vstd::prelude::*;

verus! {

/// The outermost layer of a JSON value, as contracts speak of it.
pub enum LayerView {
    Null,
    Bool(bool),
    /// A number; its value where it is an integer that fits in 64 bits, signed.
    Number(Option<i64>),
    Text(Seq<char>),
    List(Seq<Value>),
    /// The members of an object, each a key and a value, in their order.
    Object(Seq<(Seq<char>, Value)>),
}

/// The outermost layer of a JSON value.
pub enum Layer {
    Null,
    Bool(bool),
    /// A number; its value where it is an integer that fits in 64 bits, signed.
    Number(Option<i64>),
    Text(String),
    List(Vec<Value>),
    /// The members of an object, each a key and a value, in their order.
    Object(Vec<(String, Value)>),
}

impl View for Layer {
    type V = LayerView;

    open spec fn view(&self) -> LayerView {
        match self {
            Layer::Null => LayerView::Null,
            Layer::Bool(b) => LayerView::Bool(*b),
            Layer::Number(n) => LayerView::Number(*n),
            Layer::Text(s) => LayerView::Text(s@),
            Layer::List(items) => LayerView::List(items@),
            Layer::Object(members) => LayerView::Object(
                Seq::new(members@.len(), |i: int| (members@[i].0@, members@[i].1)),
            ),
        }
    }
}

/// The document of a value that lies inside another: that of the value, which
/// is less deep than the one around it.
pub open spec fn inner_document(outer_depth: nat, value: Value) -> Document
    decreases outer_depth, 0int,
{
    if json_depth(value) < outer_depth {
        value_document(value)
    } else {
        Document::Null
    }
}

/// The document of a JSON value: its outermost layer, with the document of
/// each value inside it in the place of that value.
pub open spec fn value_document(value: Value) -> Document
    decreases json_depth(value), 1int,
{
    match json_layer(value) {
        LayerView::Null => Document::Null,
        LayerView::Bool(b) => Document::Bool(b),
        LayerView::Number(n) => Document::Number(n),
        LayerView::Text(s) => Document::Text(s),
        LayerView::List(items) => Document::List(
            Seq::new(items.len(), |i: int| inner_document(json_depth(value), items[i])),
        ),
        LayerView::Object(members) => Document::Object(
            Seq::new(
                members.len(),
                |i: int| (members[i].0, inner_document(json_depth(value), members[i].1)),
            ),
        ),
    }
}

/// Writes the values of a list as documents.
fn items_to_json(items: &Vec<Value>, Ghost(outer_depth): Ghost<nat>) -> (out: Vec<Json>)
    requires
        forall|i: int| 0 <= i < items@.len() ==> json_depth(#[trigger] items@[i]) < outer_depth,
    ensures
        Json::views(out@) == Seq::new(
            items@.len(),
            |i: int| inner_document(outer_depth, items@[i]),
        ),
    decreases outer_depth, 0int,
{
    let mut out: Vec<Json> = Vec::new();
    let mut k: usize = 0;
    while k < items.len()
        invariant
            k <= items@.len(),
            out@.len() == k,
            forall|i: int| 0 <= i < items@.len() ==> json_depth(#[trigger] items@[i]) < outer_depth,
            forall|i: int| 0 <= i < k ==> (#[trigger] out@[i])@ == value_document(items@[i]),
        decreases items@.len() - k,
    {
        let doc = to_json(&items[k]);
        out.push(doc);
        k += 1;
    }
    assert(Json::views(out@) =~= Seq::new(
        items@.len(),
        |i: int| inner_document(outer_depth, items@[i]),
    ));
    out
}

/// Writes the members of an object as keys and documents.
fn members_to_json(members: &Vec<(String, Value)>, Ghost(outer_depth): Ghost<nat>) -> (out: Vec<
    (String, Json),
>)
    requires
        forall|i: int|
            0 <= i < members@.len() ==> json_depth((#[trigger] members@[i]).1) < outer_depth,
    ensures
        Json::member_views(out@) == Seq::new(
            members@.len(),
            |i: int| (members@[i].0@, inner_document(outer_depth, members@[i].1)),
        ),
    decreases outer_depth, 0int,
{
    let mut out: Vec<(String, Json)> = Vec::new();
    let mut k: usize = 0;
    while k < members.len()
        invariant
            k <= members@.len(),
            out@.len() == k,
            forall|i: int|
                0 <= i < members@.len() ==> json_depth((#[trigger] members@[i]).1) < outer_depth,
            forall|i: int|
                0 <= i < k ==> (#[trigger] out@[i]).0@ == members@[i].0@ && out@[i].1@
                    == value_document(members@[i].1),
        decreases members@.len() - k,
    {
        let member = &members[k];
        let doc = to_json(&member.1);
        out.push((member.0.clone(), doc));
        k += 1;
    }
    assert(Json::member_views(out@) =~= Seq::new(
        members@.len(),
        |i: int| (members@[i].0@, inner_document(outer_depth, members@[i].1)),
    ));
    out
}

/// Writes a JSON value as a document.
pub fn to_json(value: &Value) -> (doc: Json)
    ensures
        doc@ == value_document(*value),
    decreases json_depth(*value), 1int,
{
    let ghost depth = json_depth(*value);
    match layer_of(value) {
        Layer::Null => Json::Null,
        Layer::Bool(b) => Json::Bool(b),
        Layer::Number(n) => Json::Number(n),
        Layer::Text(s) => Json::Text(s),
        Layer::List(items) => {
            let out = items_to_json(&items, Ghost(depth));
            assert(Json::views(out@) =~= value_document(*value)->List_0);
            Json::List(out)
        },
        Layer::Object(members) => {
            let ghost views = json_layer(*value)->Object_0;
            assert forall|i: int| 0 <= i < members@.len() implies json_depth(
                (#[trigger] members@[i]).1,
            ) < depth by {
                assert(views[i].1 == members@[i].1);
            }
            let out = members_to_json(&members, Ghost(depth));
            assert(Json::member_views(out@) =~= value_document(*value)->Object_0) by {
                assert forall|i: int| 0 <= i < members@.len() implies #[trigger] views[i] == (
                    members@[i].0@,
                    members@[i].1,
                ) by {}
            }
            Json::Object(out)
        },
    }
}

} // verus!
