//! A tagged union for arbitrary structured provider data.
//!
//! Provider payloads carry open-ended fields with no canonical slot in the
//! unified model. Those fields are preserved under [`JsonValue`], which can
//! represent any JSON-like structure (string, bool, integer, array, object)
//! faithfully, rather than stringifying sub-structures opaquely.

use vstd::prelude::*;

verus! {

/// An arbitrary structured value attached to a unified calendar record.
#[derive(Debug, PartialEq, Eq)]
pub enum JsonValue {
    Null,
    Bool(bool),
    Int(i64),
    Str(String),
    Arr(Vec<JsonValue>),
    Obj(Vec<(String, JsonValue)>),
}

/// The mathematical shape of a [`JsonValue`]: the same tree with strings as
/// character sequences and collections as sequences.
pub enum JsonVal {
    Null,
    Bool(bool),
    Int(int),
    Str(Seq<char>),
    Arr(Seq<JsonVal>),
    Obj(Seq<(Seq<char>, JsonVal)>),
}

impl JsonValue {
    /// The structural content of this value, down to every leaf.
    pub open spec fn deep(self) -> JsonVal
        decreases self,
    {
        match self {
            JsonValue::Null => JsonVal::Null,
            JsonValue::Bool(b) => JsonVal::Bool(b),
            JsonValue::Int(n) => JsonVal::Int(n as int),
            JsonValue::Str(s) => JsonVal::Str(s@),
            JsonValue::Arr(items) => JsonVal::Arr(
                Seq::new(
                    items@.len(),
                    |i: int|
                        if 0 <= i < items@.len() {
                            items@[i].deep()
                        } else {
                            JsonVal::Null
                        },
                ),
            ),
            JsonValue::Obj(fields) => JsonVal::Obj(
                Seq::new(
                    fields@.len(),
                    |i: int|
                        if 0 <= i < fields@.len() {
                            (fields@[i].0@, fields@[i].1.deep())
                        } else {
                            (Seq::<char>::empty(), JsonVal::Null)
                        },
                ),
            ),
        }
    }
}

impl View for JsonValue {
    type V = JsonVal;

    open spec fn view(&self) -> JsonVal {
        self.deep()
    }
}

impl DeepView for JsonValue {
    type V = JsonVal;

    open spec fn deep_view(&self) -> JsonVal {
        self.deep()
    }
}

/// An array's structural content is the sequence of its elements' contents.
pub proof fn lemma_arr_deep(items: Vec<JsonValue>)
    ensures
        JsonValue::Arr(items).deep() == JsonVal::Arr(items.deep_view()),
{
    let d = JsonValue::Arr(items).deep();
    assert(d matches JsonVal::Arr(s) && s =~= items.deep_view());
}

/// An object's structural content is the sequence of its fields' contents.
pub proof fn lemma_obj_deep(fields: Vec<(String, JsonValue)>)
    ensures
        JsonValue::Obj(fields).deep() == JsonVal::Obj(fields.deep_view()),
{
    let d = JsonValue::Obj(fields).deep();
    assert(d matches JsonVal::Obj(s) && s =~= fields.deep_view());
}

} // verus!
