//! The shaped wire representation.
//!
//! A [`WireValue`] is the library's picture of one JSON-shaped payload: a
//! scalar, an ordered array, or an ordered list of key/value fields.  Encoders
//! produce such trees and decoders consume them; the surrounding application
//! converts them to and from its transport's concrete text encoding.
//!
//! Floating-point leaves carry the raw IEEE 754 bit pattern of the number, so
//! that the codec itself never performs floating-point arithmetic.

use vstd::prelude::*;

verus! {

broadcast use vstd::seq::group_seq_axioms;

/// The mathematical model of a wire tree: the same shape over `Seq` and
/// character sequences.
pub enum WireModel {
    /// The null scalar.
    Null,
    /// A boolean scalar.
    Bool(bool),
    /// A signed integer scalar.
    Int(i64),
    /// An unsigned integer scalar.
    UInt(u64),
    /// A floating-point scalar, as its IEEE 754 bit pattern.
    Float(u64),
    /// A text scalar.
    Text(Seq<char>),
    /// An ordered array of wire trees.
    Array(Seq<WireModel>),
    /// An ordered list of key/value fields.
    Object(Seq<(Seq<char>, WireModel)>),
}

/// One key/value field of a wire object.
#[derive(Debug, PartialEq, Eq)]
pub struct WireField {
    /// The field's key, fixed and case-sensitive on the wire.
    pub key: String,
    /// The field's value.
    pub value: WireValue,
}

/// One JSON-shaped wire payload.
#[derive(Debug, PartialEq, Eq)]
pub enum WireValue {
    /// The null scalar.
    Null,
    /// A boolean scalar.
    Bool(bool),
    /// A signed integer scalar.
    Int(i64),
    /// An unsigned integer scalar.
    UInt(u64),
    /// A floating-point scalar, as its IEEE 754 bit pattern.
    Float(u64),
    /// A text scalar.
    Text(String),
    /// An ordered array of wire values.
    Array(Vec<WireValue>),
    /// An ordered list of key/value fields.
    Object(Vec<WireField>),
}

impl WireValue {
    /// The mathematical model of this wire tree.
    pub open spec fn model(self) -> WireModel
        decreases self,
    {
        match self {
            WireValue::Null => WireModel::Null,
            WireValue::Bool(b) => WireModel::Bool(b),
            WireValue::Int(i) => WireModel::Int(i),
            WireValue::UInt(u) => WireModel::UInt(u),
            WireValue::Float(bits) => WireModel::Float(bits),
            WireValue::Text(s) => WireModel::Text(s@),
            WireValue::Array(items) => {
                proof {
                    vstd::std_specs::vec::axiom_vec_decreases_to_view(items);
                }
                WireModel::Array(model_seq(items@))
            },
            WireValue::Object(fields) => {
                proof {
                    vstd::std_specs::vec::axiom_vec_decreases_to_view(fields);
                }
                WireModel::Object(model_fields(fields@))
            },
        }
    }
}

/// The models of a sequence of wire values, element by element.
pub open spec fn model_seq(items: Seq<WireValue>) -> Seq<WireModel>
    decreases items,
{
    if items.len() == 0 {
        Seq::empty()
    } else {
        proof {
            vstd::seq::axiom_seq_index_decreases(items, 0);
            vstd::seq::axiom_seq_subrange_decreases(items, 1, items.len() as int);
        }
        seq![items[0].model()] + model_seq(items.drop_first())
    }
}

/// The models of a sequence of object fields, element by element.
pub open spec fn model_fields(fields: Seq<WireField>) -> Seq<(Seq<char>, WireModel)>
    decreases fields,
{
    if fields.len() == 0 {
        Seq::empty()
    } else {
        proof {
            vstd::seq::axiom_seq_index_decreases(fields, 0);
            vstd::seq::axiom_seq_subrange_decreases(fields, 1, fields.len() as int);
        }
        seq![(fields[0].key@, fields[0].value.model())] + model_fields(fields.drop_first())
    }
}

/// The model of an array keeps the length and models each element in place.
pub broadcast proof fn lemma_model_seq(items: Seq<WireValue>)
    ensures
        (#[trigger] model_seq(items)).len() == items.len(),
        forall|i: int| 0 <= i < items.len() ==> model_seq(items)[i] == items[i].model(),
    decreases items.len(),
{
    if items.len() > 0 {
        lemma_model_seq(items.drop_first());
    }
}

/// The model of a field list keeps the length and models each field in place.
pub broadcast proof fn lemma_model_fields(fields: Seq<WireField>)
    ensures
        (#[trigger] model_fields(fields)).len() == fields.len(),
        forall|i: int|
            0 <= i < fields.len() ==> model_fields(fields)[i] == (
            fields[i].key@,
            fields[i].value.model(),
            ),
    decreases fields.len(),
{
    if fields.len() > 0 {
        lemma_model_fields(fields.drop_first());
    }
}

/// Appending a field to a field list appends its model to the model list.
pub proof fn lemma_model_fields_push(fields: Seq<WireField>, f: WireField)
    ensures
        model_fields(fields.push(f)) == model_fields(fields).push((f.key@, f.value.model())),
    decreases fields.len(),
{
    if fields.len() == 0 {
        assert(fields.push(f).drop_first() =~= fields);
    } else {
        assert(fields.push(f).drop_first() =~= fields.drop_first().push(f));
        lemma_model_fields_push(fields.drop_first(), f);
        assert(model_fields(fields.push(f)) =~= model_fields(fields).push(
            (f.key@, f.value.model()),
        ));
    }
}

impl View for WireValue {
    type V = WireModel;

    open spec fn view(&self) -> WireModel {
        self.model()
    }
}

impl View for WireField {
    type V = (Seq<char>, WireModel);

    open spec fn view(&self) -> (Seq<char>, WireModel) {
        (self.key@, self.value.model())
    }
}

/// The name of a wire tree's shape, as decode errors report it.
pub open spec fn spec_shape_name(m: WireModel) -> &'static str {
    match m {
        WireModel::Null => "null",
        WireModel::Bool(_) => "boolean",
        WireModel::Int(_) => "integer",
        WireModel::UInt(_) => "integer",
        WireModel::Float(_) => "double",
        WireModel::Text(_) => "string",
        WireModel::Array(_) => "array",
        WireModel::Object(_) => "object",
    }
}

/// Returns the name of this wire tree's shape, as decode errors report it.
pub fn shape_name(w: &WireValue) -> (r: &'static str)
    ensures
        r@ == spec_shape_name(w@)@,
{
    match w {
        WireValue::Null => "null",
        WireValue::Bool(_) => "boolean",
        WireValue::Int(_) => "integer",
        WireValue::UInt(_) => "integer",
        WireValue::Float(_) => "double",
        WireValue::Text(_) => "string",
        WireValue::Array(_) => "array",
        WireValue::Object(_) => "object",
    }
}

/// The value of the first field named `key` in an object's field list, in
/// document order, if any field carries that name.
pub open spec fn obj_lookup(fields: Seq<(Seq<char>, WireModel)>, key: Seq<char>) -> Option<
    WireModel,
>
    decreases fields.len(),
{
    if fields.len() == 0 {
        None
    } else if fields[0].0 == key {
        Some(fields[0].1)
    } else {
        obj_lookup(fields.drop_first(), key)
    }
}

/// A value an object lookup returns stands strictly below the field list in
/// the termination order, so recursive decoders may descend through lookups.
pub proof fn lemma_lookup_decreases(fields: Seq<(Seq<char>, WireModel)>, key: Seq<char>)
    requires
        obj_lookup(fields, key) is Some,
    ensures
        decreases_to!(fields => obj_lookup(fields, key).unwrap()),
    decreases fields.len(),
{
    if fields.len() == 0 {
    } else if fields[0].0 == key {
        vstd::seq::axiom_seq_index_decreases(fields, 0);
        assert(decreases_to!(fields[0] => fields[0].1));
    } else {
        vstd::seq::axiom_seq_subrange_decreases(fields, 1, fields.len() as int);
        lemma_lookup_decreases(fields.drop_first(), key);
    }
}

proof fn lemma_lookup_hit(fields: Seq<(Seq<char>, WireModel)>, key: Seq<char>, i: int)
    requires
        0 <= i < fields.len(),
        forall|j: int| 0 <= j < i ==> fields[j].0 != key,
        fields[i].0 == key,
    ensures
        obj_lookup(fields, key) == Some(fields[i].1),
    decreases i,
{
    if i > 0 {
        lemma_lookup_hit(fields.drop_first(), key, i - 1);
    }
}

proof fn lemma_lookup_miss(fields: Seq<(Seq<char>, WireModel)>, key: Seq<char>)
    requires
        forall|j: int| 0 <= j < fields.len() ==> fields[j].0 != key,
    ensures
        obj_lookup(fields, key) is None,
    decreases fields.len(),
{
    if fields.len() > 0 {
        lemma_lookup_miss(fields.drop_first(), key);
    }
}

impl WireValue {
    /// Looks up the first field with the given key, in document order.
    ///
    /// Returns `None` when this value is not an object or no field carries
    /// the key.
    pub fn get<'a>(&'a self, key: &str) -> (r: Option<&'a WireValue>)
        ensures
            match self@ {
                WireModel::Object(fs) => match obj_lookup(fs, key@) {
                    Some(m) => r matches Some(v) && v@ == m,
                    None => r is None,
                },
                _ => r is None,
            },
            r matches Some(v) ==> decreases_to!(*self => *v),
    {
        broadcast use lemma_model_fields;

        match self {
            WireValue::Object(fields) => {
                let wanted: String = key.to_owned();
                let n = fields.len();
                let mut i: usize = 0;
                while i < n
                    invariant
                        *self is Object,
                        (*self)->Object_0 == *fields,
                        n == fields@.len(),
                        wanted@ == key@,
                        forall|j: int| 0 <= j < i ==> fields@[j].key@ != key@,
                    decreases n - i,
                {
                    if fields[i].key == wanted {
                        proof {
                            lemma_model_fields(fields@);
                            lemma_lookup_hit(model_fields(fields@), key@, i as int);
                        }
                        return Some(&fields[i].value);
                    }
                    i += 1;
                }
                proof {
                    lemma_model_fields(fields@);
                    lemma_lookup_miss(model_fields(fields@), key@);
                }
                None
            },
            _ => None,
        }
    }
}

} // verus!
