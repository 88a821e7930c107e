//! Registrable commands: validated construction and wire encoding.
//!
//! A command and its options are produced only through validating builders
//! that fail fast on the first violated rule, so a value that exists in
//! memory is always wire-valid; the encoders nevertheless re-check every
//! rule they depend on and report the same errors.

use vstd::prelude::*;

use crate::errors::CodecError;
use crate::types::{CommandKind, CommandOptionKind};
use crate::wire::{model_fields, model_seq, WireField, WireModel, WireValue};

verus! {

broadcast use vstd::seq::group_seq_axioms, vstd::slice::group_slice_axioms;

/// Returns the UTF-8 byte length of a string, the measure the wire's
/// length caps use.
pub(crate) fn string_byte_len(s: &String) -> (r: usize)
    ensures
        r == utf8_len(s@),
{
    s.as_str().as_bytes().len()
}

/// The UTF-8 byte length of a character sequence; wire length caps count
/// bytes of the encoded text.
pub open spec fn utf8_len(s: Seq<char>) -> nat {
    vstd::utf8::encode_utf8(s).len()
}

/// The mathematical model of a choice or constraint value.
pub enum ChoiceValueModel {
    /// An integer value.
    Int(i32),
    /// A floating-point value, as its IEEE 754 bit pattern.
    Float(u64),
    /// A string value.
    String(Seq<char>),
}

/// A choice or constraint value: an integer, a floating-point number
/// (carried as its IEEE 754 bit pattern), or a string.
#[derive(Debug, PartialEq)]
pub enum ChoiceValue {
    /// An integer value.
    Int(i32),
    /// A floating-point value, as its IEEE 754 bit pattern.
    Float(u64),
    /// A string value.
    String(String),
}

impl View for ChoiceValue {
    type V = ChoiceValueModel;

    open spec fn view(&self) -> ChoiceValueModel {
        match self {
            ChoiceValue::Int(i) => ChoiceValueModel::Int(*i),
            ChoiceValue::Float(bits) => ChoiceValueModel::Float(*bits),
            ChoiceValue::String(s) => ChoiceValueModel::String(s@),
        }
    }
}

/// The wire form of a choice or constraint value.
pub open spec fn spec_choice_value_wire(v: ChoiceValueModel) -> WireModel {
    match v {
        ChoiceValueModel::Int(i) => WireModel::Int(i as i64),
        ChoiceValueModel::Float(bits) => WireModel::Float(bits),
        ChoiceValueModel::String(s) => WireModel::Text(s),
    }
}

/// Whether a choice value fits the wire's length cap: a string value may
/// hold at most 100 bytes of encoded text.
pub open spec fn choice_value_len_ok(v: ChoiceValueModel) -> bool {
    v matches ChoiceValueModel::String(s) ==> utf8_len(s) <= 100
}

/// The name of a choice value's shape, as encode errors report it.
pub open spec fn spec_choice_value_kind_name(v: ChoiceValueModel) -> &'static str {
    match v {
        ChoiceValueModel::Int(_) => "integer",
        ChoiceValueModel::Float(_) => "double",
        ChoiceValueModel::String(_) => "string",
    }
}

/// Returns the name of this choice value's shape, as encode errors report
/// it.
fn choice_value_kind_name(v: &ChoiceValue) -> (r: &'static str)
    ensures
        r@ == spec_choice_value_kind_name(v@)@,
{
    match v {
        ChoiceValue::Int(_) => "integer",
        ChoiceValue::Float(_) => "double",
        ChoiceValue::String(_) => "string",
    }
}

/// Encodes a choice or constraint value as a wire scalar; a string value
/// longer than 100 bytes fails.
pub fn encode_choice_value(v: &ChoiceValue) -> (r: Result<WireValue, CodecError>)
    ensures
        r is Ok <==> choice_value_len_ok(v@),
        r matches Ok(w) ==> w@ == spec_choice_value_wire(v@),
        !choice_value_len_ok(v@) ==> (r matches Err(CodecError::ValueTooLong(f, max)) && f@
            == "value"@ && max == 100),
{
    match v {
        ChoiceValue::Int(i) => Ok(WireValue::Int(*i as i64)),
        ChoiceValue::Float(bits) => Ok(WireValue::Float(*bits)),
        ChoiceValue::String(s) => {
            if string_byte_len(s) > 100 {
                Err(CodecError::ValueTooLong("value", 100))
            } else {
                Ok(WireValue::Text(s.clone()))
            }
        },
    }
}

/// The mathematical model of a command option choice.
pub struct ChoiceModel {
    /// The choice's name.
    pub name: Seq<char>,
    /// The choice's value.
    pub value: ChoiceValueModel,
}

/// A named choice offered for a command option.  Built only through
/// [`CommandOptionChoiceBuilder`], which caps string values at 100 bytes.
#[derive(Debug)]
pub struct Choice {
    name: String,
    value: ChoiceValue,
}

impl Choice {
    /// The mathematical model of this choice.
    pub closed spec fn model(self) -> ChoiceModel {
        ChoiceModel { name: self.name@, value: self.value@ }
    }
}

impl View for Choice {
    type V = ChoiceModel;

    closed spec fn view(&self) -> ChoiceModel {
        self.model()
    }
}

/// The wire form of a choice: its name and its value.
pub open spec fn spec_choice_wire(c: ChoiceModel) -> WireModel {
    WireModel::Object(
        seq![
            ("name"@, WireModel::Text(c.name)),
            ("value"@, spec_choice_value_wire(c.value)),
        ],
    )
}

impl Choice {
    /// Encodes this choice as a wire object of its name and value; a string
    /// value longer than 100 bytes fails.
    pub fn encode(&self) -> (r: Result<WireValue, CodecError>)
        ensures
            r is Ok <==> choice_value_len_ok(self@.value),
            r matches Ok(w) ==> w@ == spec_choice_wire(self@),
            !choice_value_len_ok(self@.value) ==> (r matches Err(
                CodecError::ValueTooLong(f, max),
            ) && f@ == "value"@ && max == 100),
    {
        let value = match encode_choice_value(&self.value) {
            Ok(w) => w,
            Err(e) => {
                return Err(e);
            },
        };
        let mut fields: Vec<WireField> = Vec::new();
        fields.push(WireField { key: "name".to_owned(), value: WireValue::Text(self.name.clone()) });
        fields.push(WireField { key: "value".to_owned(), value });
        proof {
            crate::wire::lemma_model_fields(fields@);
            assert(model_fields(fields@) =~= spec_choice_wire(self@)->Object_0);
        }
        Ok(WireValue::Object(fields))
    }
}

/// A builder for [`Choice`]: accumulates the optional fields and validates
/// them at [`CommandOptionChoiceBuilder::build`].
pub struct CommandOptionChoiceBuilder {
    /// The choice's name, once set.
    pub name: Option<String>,
    /// The choice's value, once set.
    pub value: Option<ChoiceValue>,
}

impl CommandOptionChoiceBuilder {
    /// Starts a builder with no field set.
    pub fn new() -> (r: Self)
        ensures
            r.name is None,
            r.value is None,
    {
        CommandOptionChoiceBuilder { name: None, value: None }
    }

    /// Sets the name of the choice.
    pub fn name(self, name: String) -> (r: Self)
        ensures
            r.name matches Some(n) && n@ == name@,
            r.value == self.value,
    {
        CommandOptionChoiceBuilder { name: Some(name), ..self }
    }

    /// Sets the value of the choice.
    pub fn value(self, value: ChoiceValue) -> (r: Self)
        ensures
            r.value == Some(value),
            r.name == self.name,
    {
        CommandOptionChoiceBuilder { value: Some(value), ..self }
    }

    /// Builds the choice.  Fails on the first violated rule: the name and
    /// the value must be set, and a string value may hold at most 100 bytes.
    pub fn build(self) -> (r: Result<Choice, CodecError>)
        ensures
            r is Ok <==> self.name is Some && self.value is Some && choice_value_len_ok(
                self.value->Some_0@,
            ),
            r matches Ok(c) ==> c@.name == self.name->Some_0@ && c@.value == self.value->Some_0@,
            self.name is None ==> (r matches Err(CodecError::MissingRequiredField(f)) && f@
                == "name"@),
            self.name is Some && self.value is None ==> (r matches Err(
                CodecError::MissingRequiredField(f),
            ) && f@ == "value"@),
            match self.value {
                Some(v) => (self.name is Some && !choice_value_len_ok(v@)) ==> (r matches Err(
                    CodecError::ValueTooLong(f, max),
                ) && f@ == "value"@ && max == 100),
                None => true,
            },
    {
        let name = match self.name {
            Some(n) => n,
            None => {
                return Err(CodecError::MissingRequiredField("name"));
            },
        };
        let value = match self.value {
            Some(v) => v,
            None => {
                return Err(CodecError::MissingRequiredField("value"));
            },
        };
        match &value {
            ChoiceValue::String(s) => {
                if string_byte_len(s) > 100 {
                    return Err(CodecError::ValueTooLong("value", 100));
                }
            },
            _ => (),
        }
        Ok(Choice { name, value })
    }
}

/// The models of a sequence of choices, element by element.
pub open spec fn model_choice_seq(items: Seq<Choice>) -> Seq<ChoiceModel>
    decreases items.len(),
{
    if items.len() == 0 {
        Seq::empty()
    } else {
        seq![items[0]@] + model_choice_seq(items.drop_first())
    }
}

proof fn lemma_model_choice_seq(items: Seq<Choice>)
    ensures
        model_choice_seq(items).len() == items.len(),
        forall|i: int| 0 <= i < items.len() ==> model_choice_seq(items)[i] == items[i]@,
    decreases items.len(),
{
    if items.len() > 0 {
        lemma_model_choice_seq(items.drop_first());
    }
}

/// Whether every choice in a list fits the wire's length cap.
pub open spec fn choices_len_ok(cs: Seq<ChoiceModel>) -> bool {
    forall|i: int| 0 <= i < cs.len() ==> choice_value_len_ok(#[trigger] cs[i].value)
}

/// The wire forms of a sequence of choices, element by element.
pub open spec fn spec_choices_wire(cs: Seq<ChoiceModel>) -> Seq<WireModel>
    decreases cs.len(),
{
    if cs.len() == 0 {
        Seq::empty()
    } else {
        seq![spec_choice_wire(cs[0])] + spec_choices_wire(cs.drop_first())
    }
}

proof fn lemma_spec_choices_wire(cs: Seq<ChoiceModel>)
    ensures
        spec_choices_wire(cs).len() == cs.len(),
        forall|i: int| 0 <= i < cs.len() ==> spec_choices_wire(cs)[i] == spec_choice_wire(cs[i]),
    decreases cs.len(),
{
    if cs.len() > 0 {
        lemma_spec_choices_wire(cs.drop_first());
    }
}

/// Encodes each choice of a list as a wire object, in order, stopping at
/// the first choice that fails.
pub(crate) fn encode_choice_list(cs: &Vec<Choice>) -> (r: Result<Vec<WireValue>, CodecError>)
    ensures
        r is Ok <==> choices_len_ok(model_choice_seq(cs@)),
        r matches Ok(ws) ==> model_seq(ws@) == spec_choices_wire(model_choice_seq(cs@)),
        !choices_len_ok(model_choice_seq(cs@)) ==> (r matches Err(
            CodecError::ValueTooLong(f, max),
        ) && f@ == "value"@ && max == 100),
{
    let ghost ms = model_choice_seq(cs@);
    proof {
        lemma_model_choice_seq(cs@);
        lemma_spec_choices_wire(ms);
    }
    let mut out: Vec<WireValue> = Vec::new();
    let n = cs.len();
    let mut i: usize = 0;
    while i < n
        invariant
            n == cs@.len(),
            i <= n,
            out@.len() == i as int,
            ms == model_choice_seq(cs@),
            ms.len() == cs@.len(),
            forall|j: int| 0 <= j < cs@.len() ==> ms[j] == cs@[j]@,
            forall|j: int| 0 <= j < i ==> choice_value_len_ok(#[trigger] ms[j].value),
            forall|j: int| 0 <= j < i ==> #[trigger] out@[j]@ == spec_choice_wire(ms[j]),
        decreases n - i,
    {
        match cs[i].encode() {
            Ok(w) => {
                out.push(w);
            },
            Err(e) => {
                proof {
                    assert(!choice_value_len_ok(ms[i as int].value));
                }
                return Err(e);
            },
        }
        i += 1;
    }
    proof {
        lemma_spec_choices_wire(ms);
        crate::wire::lemma_model_seq(out@);
        assert forall|j: int| 0 <= j < out@.len() implies model_seq(out@)[j] == spec_choices_wire(
            ms,
        )[j] by {
            assert(model_seq(out@)[j] == out@[j].model());
            assert(out@[j]@ == out@[j].model());
            assert(spec_choices_wire(ms)[j] == spec_choice_wire(ms[j]));
        }
        assert(model_seq(out@) =~= spec_choices_wire(ms));
    }
    Ok(out)
}

/// The mathematical model of a command option.
pub struct CommandOptionModel {
    /// The option's kind.
    pub kind: CommandOptionKind,
    /// The option's name.
    pub name: Seq<char>,
    /// The option's description.
    pub description: Seq<char>,
    /// Whether the option must be supplied, once set.
    pub required: Option<bool>,
    /// The option's choices, once any was added.
    pub choices: Option<Seq<ChoiceModel>>,
    /// The option's nested sub-options, once any was added.
    pub options: Option<Seq<CommandOptionModel>>,
    /// The option's minimum numeric value, once set.
    pub min_value: Option<ChoiceValueModel>,
    /// The option's maximum numeric value, once set.
    pub max_value: Option<ChoiceValueModel>,
    /// The option's minimum length, once set.
    pub min_length: Option<ChoiceValueModel>,
    /// The option's maximum length, once set.
    pub max_length: Option<ChoiceValueModel>,
    /// Whether the option autocompletes, once set.
    pub autocomplete: Option<bool>,
}

/// One option of a registrable command: a kind, a name, a description, and
/// optional constraints, choices, and nested sub-options.  Built only
/// through [`CommandOptionBuilder`], which validates the numeric bounds.
#[derive(Debug)]
pub struct CommandOption {
    kind: CommandOptionKind,
    name: String,
    description: String,
    required: Option<bool>,
    choices: Option<Vec<Choice>>,
    options: Option<Vec<CommandOption>>,
    min_value: Option<ChoiceValue>,
    max_value: Option<ChoiceValue>,
    min_length: Option<ChoiceValue>,
    max_length: Option<ChoiceValue>,
    autocomplete: Option<bool>,
}

impl CommandOption {
    /// The mathematical model of this option.
    pub closed spec fn model(self) -> CommandOptionModel
        decreases self,
    {
        CommandOptionModel {
            kind: self.kind,
            name: self.name@,
            description: self.description@,
            required: self.required,
            choices: match self.choices {
                Option::None => None,
                Option::Some(cs) => Some(model_choice_seq(cs@)),
            },
            options: match self.options {
                Option::None => None,
                Option::Some(list) => {
                    proof {
                        vstd::std_specs::vec::axiom_vec_decreases_to_view(list);
                    }
                    Some(model_option_seq(list@))
                },
            },
            min_value: match self.min_value {
                Option::None => None,
                Option::Some(v) => Some(v@),
            },
            max_value: match self.max_value {
                Option::None => None,
                Option::Some(v) => Some(v@),
            },
            min_length: match self.min_length {
                Option::None => None,
                Option::Some(v) => Some(v@),
            },
            max_length: match self.max_length {
                Option::None => None,
                Option::Some(v) => Some(v@),
            },
            autocomplete: self.autocomplete,
        }
    }
}

/// The models of a sequence of command options, element by element.
pub open spec fn model_option_seq(items: Seq<CommandOption>) -> Seq<CommandOptionModel>
    decreases items,
{
    if items.len() == 0 {
        Seq::empty()
    } else {
        proof {
            vstd::seq::axiom_seq_index_decreases(items, 0);
            vstd::seq::axiom_seq_subrange_decreases(items, 1, items.len() as int);
        }
        seq![items[0].model()] + model_option_seq(items.drop_first())
    }
}

proof fn lemma_model_option_seq(items: Seq<CommandOption>)
    ensures
        model_option_seq(items).len() == items.len(),
        forall|i: int| 0 <= i < items.len() ==> model_option_seq(items)[i] == items[i].model(),
    decreases items.len(),
{
    if items.len() > 0 {
        lemma_model_option_seq(items.drop_first());
    }
}

impl View for CommandOption {
    type V = CommandOptionModel;

    closed spec fn view(&self) -> CommandOptionModel {
        self.model()
    }
}

/// Whether an option can be encoded: every choice fits the length cap, the
/// numeric bounds are not strings, the length bounds are integers, and
/// every nested sub-option can be encoded in turn.
pub open spec fn option_encodable(o: CommandOptionModel) -> bool
    decreases o,
{
    &&& (match o.choices {
        Option::None => true,
        Option::Some(cs) => choices_len_ok(cs),
    })
    &&& !(o.min_value matches Some(ChoiceValueModel::String(_)))
    &&& !(o.max_value matches Some(ChoiceValueModel::String(_)))
    &&& (match o.min_length {
        Option::None => true,
        Option::Some(v) => v is Int,
    })
    &&& (match o.max_length {
        Option::None => true,
        Option::Some(v) => v is Int,
    })
    &&& (match o.options {
        Option::None => true,
        Option::Some(list) => options_encodable(list),
    })
}

/// Whether every option in a sequence can be encoded.
pub open spec fn options_encodable(list: Seq<CommandOptionModel>) -> bool
    decreases list,
{
    if list.len() == 0 {
        true
    } else {
        proof {
            vstd::seq::axiom_seq_index_decreases(list, 0);
            vstd::seq::axiom_seq_subrange_decreases(list, 1, list.len() as int);
        }
        option_encodable(list[0]) && options_encodable(list.drop_first())
    }
}

/// A sequence of options is encodable exactly when each element is.
pub proof fn lemma_options_encodable(list: Seq<CommandOptionModel>)
    ensures
        options_encodable(list) <==> (forall|j: int|
            0 <= j < list.len() ==> option_encodable(#[trigger] list[j])),
    decreases list.len(),
{
    if list.len() > 0 {
        lemma_options_encodable(list.drop_first());
        if options_encodable(list) {
            assert forall|j: int| 0 <= j < list.len() implies option_encodable(
                #[trigger] list[j],
            ) by {
                if j > 0 {
                    assert(list[j] == list.drop_first()[j - 1]);
                    assert(option_encodable(list.drop_first()[j - 1]));
                }
            }
        }
        if forall|j: int| 0 <= j < list.len() ==> option_encodable(#[trigger] list[j]) {
            assert forall|j: int| 0 <= j < list.drop_first().len() implies option_encodable(
                #[trigger] list.drop_first()[j],
            ) by {
                assert(list.drop_first()[j] == list[j + 1]);
            }
            assert(options_encodable(list));
        }
    }
}

/// One optional field of a wire object: absent fields are omitted entirely.
pub open spec fn opt_field(key: Seq<char>, v: Option<WireModel>) -> Seq<(Seq<char>, WireModel)> {
    match v {
        Option::None => Seq::empty(),
        Option::Some(w) => seq![(key, w)],
    }
}

/// The wire fields of an option's required flag, choices, and nested
/// sub-options, each omitted when it was never set.
pub open spec fn spec_nested_fields(
    required: Option<bool>,
    choices: Option<Seq<ChoiceModel>>,
    options: Option<Seq<CommandOptionModel>>,
) -> Seq<(Seq<char>, WireModel)>
    decreases options,
{
    opt_field(
        "required"@,
        match required {
            Option::None => None,
            Option::Some(b) => Some(WireModel::Bool(b)),
        },
    ) + opt_field(
        "choices"@,
        match choices {
            Option::None => None,
            Option::Some(cs) => Some(WireModel::Array(spec_choices_wire(cs))),
        },
    ) + opt_field(
        "options"@,
        match options {
            Option::None => None,
            Option::Some(list) => Some(WireModel::Array(spec_options_wire(list))),
        },
    )
}

/// The wire form of an option: `type`, `name`, and `description` always,
/// then each optional field only when it was set.
pub open spec fn spec_option_wire(o: CommandOptionModel) -> WireModel
    decreases o,
{
    WireModel::Object(
        seq![
            ("type"@, WireModel::UInt(o.kind.spec_wire() as u64)),
            ("name"@, WireModel::Text(o.name)),
            ("description"@, WireModel::Text(o.description)),
        ] + spec_nested_fields(o.required, o.choices, o.options) + spec_constraint_fields(
            o.min_value,
            o.max_value,
            o.min_length,
            o.max_length,
            o.autocomplete,
        ),
    )
}

/// The wire forms of a sequence of options, element by element.
pub open spec fn spec_options_wire(list: Seq<CommandOptionModel>) -> Seq<WireModel>
    decreases list,
{
    if list.len() == 0 {
        Seq::empty()
    } else {
        proof {
            vstd::seq::axiom_seq_index_decreases(list, 0);
            vstd::seq::axiom_seq_subrange_decreases(list, 1, list.len() as int);
        }
        seq![spec_option_wire(list[0])] + spec_options_wire(list.drop_first())
    }
}

proof fn lemma_spec_options_wire(list: Seq<CommandOptionModel>)
    ensures
        spec_options_wire(list).len() == list.len(),
        forall|i: int|
            0 <= i < list.len() ==> spec_options_wire(list)[i] == spec_option_wire(list[i]),
    decreases list.len(),
{
    if list.len() > 0 {
        lemma_spec_options_wire(list.drop_first());
    }
}

/// Encodes each option of a list as a wire object, in order, stopping at
/// the first option that fails.
fn encode_option_list(list: &Vec<CommandOption>) -> (r: Result<Vec<WireValue>, CodecError>)
    ensures
        r is Ok <==> options_encodable(model_option_seq(list@)),
        r matches Ok(ws) ==> model_seq(ws@) == spec_options_wire(model_option_seq(list@)),
    decreases *list,
{
    let ghost ms = model_option_seq(list@);
    proof {
        lemma_model_option_seq(list@);
        lemma_options_encodable(ms);
        lemma_spec_options_wire(ms);
    }
    let mut out: Vec<WireValue> = Vec::new();
    let n = list.len();
    let mut i: usize = 0;
    while i < n
        invariant
            n == list@.len(),
            i <= n,
            out@.len() == i as int,
            ms == model_option_seq(list@),
            ms.len() == list@.len(),
            forall|j: int| 0 <= j < list@.len() ==> ms[j] == list@[j].model(),
            forall|j: int| 0 <= j < i ==> option_encodable(#[trigger] ms[j]),
            forall|j: int| 0 <= j < i ==> #[trigger] out@[j]@ == spec_option_wire(ms[j]),
        decreases n - i,
    {
        proof {
            vstd::std_specs::vec::axiom_vec_index_decreases(*list, i as int);
        }
        match list[i].encode() {
            Ok(w) => {
                out.push(w);
            },
            Err(e) => {
                proof {
                    assert(!option_encodable(ms[i as int]));
                    lemma_options_encodable(ms);
                }
                return Err(e);
            },
        }
        i += 1;
    }
    proof {
        lemma_options_encodable(ms);
        lemma_spec_options_wire(ms);
        crate::wire::lemma_model_seq(out@);
        assert forall|j: int| 0 <= j < out@.len() implies model_seq(out@)[j] == spec_options_wire(
            ms,
        )[j] by {
            assert(model_seq(out@)[j] == out@[j].model());
            assert(out@[j]@ == out@[j].model());
            assert(spec_options_wire(ms)[j] == spec_option_wire(ms[j]));
        }
        assert(model_seq(out@) =~= spec_options_wire(ms));
    }
    Ok(out)
}

/// The view of an optional choice value.
pub open spec fn opt_value_model(v: Option<ChoiceValue>) -> Option<ChoiceValueModel> {
    match v {
        Option::None => None,
        Option::Some(x) => Some(x@),
    }
}

/// Whether an option's constraint fields can be encoded: the numeric bounds
/// are not strings and the length bounds are integers.
pub open spec fn constraint_fields_ok(
    min_value: Option<ChoiceValueModel>,
    max_value: Option<ChoiceValueModel>,
    min_length: Option<ChoiceValueModel>,
    max_length: Option<ChoiceValueModel>,
) -> bool {
    &&& !(min_value matches Some(ChoiceValueModel::String(_)))
    &&& !(max_value matches Some(ChoiceValueModel::String(_)))
    &&& (match min_length {
        Option::None => true,
        Option::Some(v) => v is Int,
    })
    &&& (match max_length {
        Option::None => true,
        Option::Some(v) => v is Int,
    })
}

/// The wire fields of an option's constraints and autocomplete flag, each
/// omitted when it was never set.
pub open spec fn spec_constraint_fields(
    min_value: Option<ChoiceValueModel>,
    max_value: Option<ChoiceValueModel>,
    min_length: Option<ChoiceValueModel>,
    max_length: Option<ChoiceValueModel>,
    autocomplete: Option<bool>,
) -> Seq<(Seq<char>, WireModel)> {
    opt_field(
        "min_value"@,
        match min_value {
            Option::None => None,
            Option::Some(v) => Some(spec_choice_value_wire(v)),
        },
    ) + opt_field(
        "max_value"@,
        match max_value {
            Option::None => None,
            Option::Some(v) => Some(spec_choice_value_wire(v)),
        },
    ) + opt_field(
        "min_length"@,
        match min_length {
            Option::None => None,
            Option::Some(v) => Some(spec_choice_value_wire(v)),
        },
    ) + opt_field(
        "max_length"@,
        match max_length {
            Option::None => None,
            Option::Some(v) => Some(spec_choice_value_wire(v)),
        },
    ) + opt_field(
        "autocomplete"@,
        match autocomplete {
            Option::None => None,
            Option::Some(b) => Some(WireModel::Bool(b)),
        },
    )
}

/// Appends an option's constraint fields and autocomplete flag to a field
/// list, re-checking each constraint's shape as the wire demands.
#[verifier::rlimit(100)]
fn encode_constraint_fields(
    fields: &mut Vec<WireField>,
    min_value: &Option<ChoiceValue>,
    max_value: &Option<ChoiceValue>,
    min_length: &Option<ChoiceValue>,
    max_length: &Option<ChoiceValue>,
    autocomplete: &Option<bool>,
) -> (r: Result<(), CodecError>)
    ensures
        r is Ok <==> constraint_fields_ok(
            opt_value_model(*min_value),
            opt_value_model(*max_value),
            opt_value_model(*min_length),
            opt_value_model(*max_length),
        ),
        r is Ok ==> model_fields(final(fields)@) == model_fields(old(fields)@)
            + spec_constraint_fields(
            opt_value_model(*min_value),
            opt_value_model(*max_value),
            opt_value_model(*min_length),
            opt_value_model(*max_length),
            *autocomplete,
        ),
{
    let ghost start: Seq<(Seq<char>, WireModel)> = model_fields(fields@);
    let ghost mut exp: Seq<(Seq<char>, WireModel)> = start;
    match min_value {
        None => (),
        Some(v) => match v {
            ChoiceValue::String(_) => {
                return Err(
                    CodecError::TypeMismatch("integer or double", choice_value_kind_name(v)),
                );
            },
            _ => match encode_choice_value(v) {
                Ok(w) => {
                    let ghost pre = fields@;
                    let wf = WireField { key: "min_value".to_owned(), value: w };
                    fields.push(wf);
                    proof {
                        crate::wire::lemma_model_fields_push(pre, wf);
                        exp = exp.push(("min_value"@, spec_choice_value_wire(v@)));
                    }
                },
                Err(e) => {
                    return Err(e);
                },
            },
        },
    }
    match max_value {
        None => (),
        Some(v) => match v {
            ChoiceValue::String(_) => {
                return Err(
                    CodecError::TypeMismatch("integer or double", choice_value_kind_name(v)),
                );
            },
            _ => match encode_choice_value(v) {
                Ok(w) => {
                    let ghost pre = fields@;
                    let wf = WireField { key: "max_value".to_owned(), value: w };
                    fields.push(wf);
                    proof {
                        crate::wire::lemma_model_fields_push(pre, wf);
                        exp = exp.push(("max_value"@, spec_choice_value_wire(v@)));
                    }
                },
                Err(e) => {
                    return Err(e);
                },
            },
        },
    }
    proof {
        assert(model_fields(fields@) == exp);
        assert(exp == start + opt_field(
            "min_value"@,
            match opt_value_model(*min_value) {
                Option::None => None,
                Option::Some(v) => Some(spec_choice_value_wire(v)),
            },
        ) + opt_field(
            "max_value"@,
            match opt_value_model(*max_value) {
                Option::None => None,
                Option::Some(v) => Some(spec_choice_value_wire(v)),
            },
        ));
    }
    match min_length {
        None => (),
        Some(v) => match v {
            ChoiceValue::Int(i) => {
                let ghost pre = fields@;
                let wf = WireField {
                    key: "min_length".to_owned(),
                    value: WireValue::Int(*i as i64),
                };
                fields.push(wf);
                proof {
                    crate::wire::lemma_model_fields_push(pre, wf);
                    exp = exp.push(("min_length"@, spec_choice_value_wire(v@)));
                }
            },
            _ => {
                return Err(CodecError::TypeMismatch("integer", choice_value_kind_name(v)));
            },
        },
    }
    match max_length {
        None => (),
        Some(v) => match v {
            ChoiceValue::Int(i) => {
                let ghost pre = fields@;
                let wf = WireField {
                    key: "max_length".to_owned(),
                    value: WireValue::Int(*i as i64),
                };
                fields.push(wf);
                proof {
                    crate::wire::lemma_model_fields_push(pre, wf);
                    exp = exp.push(("max_length"@, spec_choice_value_wire(v@)));
                }
            },
            _ => {
                return Err(CodecError::TypeMismatch("integer", choice_value_kind_name(v)));
            },
        },
    }
    match autocomplete {
        None => (),
        Some(b) => {
            let ghost pre = fields@;
            let wf = WireField { key: "autocomplete".to_owned(), value: WireValue::Bool(*b) };
            fields.push(wf);
            proof {
                crate::wire::lemma_model_fields_push(pre, wf);
                exp = exp.push(("autocomplete"@, WireModel::Bool(*b)));
            }
        },
    }
    proof {
        assert(model_fields(fields@) == exp);
        assert(exp == start + spec_constraint_fields(
            opt_value_model(*min_value),
            opt_value_model(*max_value),
            opt_value_model(*min_length),
            opt_value_model(*max_length),
            *autocomplete,
        ));
    }
    Ok(())
}

/// The models of an option's optional choice list.
pub open spec fn opt_choices_model(v: Option<Vec<Choice>>) -> Option<Seq<ChoiceModel>> {
    match v {
        Option::None => None,
        Option::Some(cs) => Some(model_choice_seq(cs@)),
    }
}

/// The models of an option's optional sub-option list.
pub open spec fn opt_options_model(v: Option<Vec<CommandOption>>) -> Option<
    Seq<CommandOptionModel>,
> {
    match v {
        Option::None => None,
        Option::Some(list) => Some(model_option_seq(list@)),
    }
}

/// Appends an option's required flag, choices, and nested sub-options to a
/// field list, encoding each list element in order.
#[verifier::rlimit(100)]
fn encode_nested_fields(
    fields: &mut Vec<WireField>,
    required: &Option<bool>,
    choices: &Option<Vec<Choice>>,
    options: &Option<Vec<CommandOption>>,
) -> (r: Result<(), CodecError>)
    ensures
        r is Ok <==> ((match opt_choices_model(*choices) {
            Option::None => true,
            Option::Some(cs) => choices_len_ok(cs),
        }) && (match opt_options_model(*options) {
            Option::None => true,
            Option::Some(list) => options_encodable(list),
        })),
        r is Ok ==> model_fields(final(fields)@) == model_fields(old(fields)@)
            + spec_nested_fields(
            *required,
            opt_choices_model(*choices),
            opt_options_model(*options),
        ),
    decreases *options,
{
    let ghost start: Seq<(Seq<char>, WireModel)> = model_fields(fields@);
    let ghost mut exp: Seq<(Seq<char>, WireModel)> = start;
    match required {
        None => (),
        Some(b) => {
            let ghost pre = fields@;
            let wf = WireField { key: "required".to_owned(), value: WireValue::Bool(*b) };
            fields.push(wf);
            proof {
                crate::wire::lemma_model_fields_push(pre, wf);
                exp = exp.push(("required"@, WireModel::Bool(*b)));
            }
        },
    }
    match choices {
        None => (),
        Some(cs) => match encode_choice_list(cs) {
            Ok(ws) => {
                let ghost pre = fields@;
                let ghost wsm = model_seq(ws@);
                let wf = WireField { key: "choices".to_owned(), value: WireValue::Array(ws) };
                fields.push(wf);
                proof {
                    crate::wire::lemma_model_fields_push(pre, wf);
                    assert(wf.value.model() == WireModel::Array(wsm));
                    exp = exp.push(("choices"@, WireModel::Array(wsm)));
                }
            },
            Err(e) => {
                return Err(e);
            },
        },
    }
    match options {
        None => (),
        Some(list) => {
            proof {
                assert(decreases_to!(*options => *list));
            }
            match encode_option_list(list) {
                Ok(ws) => {
                    let ghost pre = fields@;
                    let ghost wsm = model_seq(ws@);
                    let wf = WireField { key: "options".to_owned(), value: WireValue::Array(ws) };
                    fields.push(wf);
                    proof {
                        crate::wire::lemma_model_fields_push(pre, wf);
                        assert(wf.value.model() == WireModel::Array(wsm));
                        exp = exp.push(("options"@, WireModel::Array(wsm)));
                    }
                },
                Err(e) => {
                    return Err(e);
                },
            }
        },
    }
    proof {
        assert(model_fields(fields@) == exp);
        assert(exp == start + spec_nested_fields(
            *required,
            opt_choices_model(*choices),
            opt_options_model(*options),
        ));
    }
    Ok(())
}

impl CommandOption {
    /// Encodes this option as a wire object: `type`, `name`, and
    /// `description` always, each optional field only when set, and every
    /// constraint re-checked as the wire demands.
    #[verifier::rlimit(100)]
    pub fn encode(&self) -> (r: Result<WireValue, CodecError>)
        ensures
            r is Ok <==> option_encodable(self@),
            r matches Ok(w) ==> w@ == spec_option_wire(self@),
        decreases *self,
    {
        let ghost o = self@;
        let mut fields: Vec<WireField> = Vec::new();
        fields.push(
            WireField { key: "type".to_owned(), value: WireValue::UInt(self.kind.wire() as u64) },
        );
        fields.push(
            WireField { key: "name".to_owned(), value: WireValue::Text(self.name.clone()) },
        );
        fields.push(
            WireField {
                key: "description".to_owned(),
                value: WireValue::Text(self.description.clone()),
            },
        );
        let ghost base: Seq<(Seq<char>, WireModel)> = seq![
            ("type"@, WireModel::UInt(o.kind.spec_wire() as u64)),
            ("name"@, WireModel::Text(o.name)),
            ("description"@, WireModel::Text(o.description)),
        ];
        proof {
            crate::wire::lemma_model_fields(fields@);
            assert(model_fields(fields@) =~= base);
        }
        proof {
            assert(decreases_to!(*self => self.options));
        }
        match encode_nested_fields(&mut fields, &self.required, &self.choices, &self.options) {
            Ok(()) => (),
            Err(e) => {
                return Err(e);
            },
        }
        match encode_constraint_fields(
            &mut fields,
            &self.min_value,
            &self.max_value,
            &self.min_length,
            &self.max_length,
            &self.autocomplete,
        ) {
            Ok(()) => (),
            Err(e) => {
                return Err(e);
            },
        }
        proof {
            assert(opt_choices_model(self.choices) == o.choices);
            assert(opt_options_model(self.options) == o.options);
            assert(opt_value_model(self.min_value) == o.min_value);
            assert(opt_value_model(self.max_value) == o.max_value);
            assert(opt_value_model(self.min_length) == o.min_length);
            assert(opt_value_model(self.max_length) == o.max_length);
            assert(model_fields(fields@) == base + spec_nested_fields(
                o.required,
                o.choices,
                o.options,
            ) + spec_constraint_fields(
                o.min_value,
                o.max_value,
                o.min_length,
                o.max_length,
                o.autocomplete,
            ));
            assert(model_fields(fields@) =~= spec_option_wire(o)->Object_0);
        }
        Ok(WireValue::Object(fields))
    }
}

/// Checks a numeric field against inclusive bounds, reporting the field and
/// its permitted range when the value falls outside it.
pub fn check_range(field: &'static str, value: i64, lo: i64, hi: i64) -> (r: Result<
    (),
    CodecError,
>)
    ensures
        r is Ok <==> lo <= value <= hi,
        !(lo <= value <= hi) ==> r == Err::<(), CodecError>(
            CodecError::InvalidFieldRange(field, lo, hi),
        ),
{
    if value < lo || value > hi {
        Err(CodecError::InvalidFieldRange(field, lo, hi))
    } else {
        Ok(())
    }
}

/// A builder for [`CommandOption`]: accumulates the optional fields and
/// validates them at [`CommandOptionBuilder::build`].
pub struct CommandOptionBuilder {
    /// The option's kind, once set.
    pub kind: Option<CommandOptionKind>,
    /// The option's name, once set.
    pub name: Option<String>,
    /// The option's description, once set.
    pub description: Option<String>,
    /// Whether the option must be supplied, once set.
    pub required: Option<bool>,
    /// The option's choices, once any was added.
    pub choices: Option<Vec<Choice>>,
    /// The option's nested sub-options, once any was added.
    pub options: Option<Vec<CommandOption>>,
    /// The option's minimum numeric value, once set.
    pub min_value: Option<ChoiceValue>,
    /// The option's maximum numeric value, once set.
    pub max_value: Option<ChoiceValue>,
    /// The option's minimum length, once set.
    pub min_length: Option<ChoiceValue>,
    /// The option's maximum length, once set.
    pub max_length: Option<ChoiceValue>,
    /// Whether the option autocompletes, once set.
    pub autocomplete: Option<bool>,
}

impl CommandOptionBuilder {
    /// Starts a builder with no field set.
    pub fn new() -> (r: Self)
        ensures
            r.kind is None,
            r.name is None,
            r.description is None,
            r.required is None,
            r.choices is None,
            r.options is None,
            r.min_value is None,
            r.max_value is None,
            r.min_length is None,
            r.max_length is None,
            r.autocomplete is None,
    {
        CommandOptionBuilder {
            kind: None,
            name: None,
            description: None,
            required: None,
            choices: None,
            options: None,
            min_value: None,
            max_value: None,
            min_length: None,
            max_length: None,
            autocomplete: None,
        }
    }

    /// Sets the kind of the option.
    pub fn kind(self, kind: CommandOptionKind) -> (r: Self)
        ensures
            r == (CommandOptionBuilder { kind: Some(kind), ..self }),
    {
        CommandOptionBuilder { kind: Some(kind), ..self }
    }

    /// Sets the name of the option.
    pub fn name(self, name: String) -> (r: Self)
        ensures
            r == (CommandOptionBuilder { name: Some(name), ..self }),
    {
        CommandOptionBuilder { name: Some(name), ..self }
    }

    /// Sets the description of the option.
    pub fn description(self, description: String) -> (r: Self)
        ensures
            r == (CommandOptionBuilder { description: Some(description), ..self }),
    {
        CommandOptionBuilder { description: Some(description), ..self }
    }

    /// Sets whether the option must be supplied.
    pub fn required(self, required: bool) -> (r: Self)
        ensures
            r == (CommandOptionBuilder { required: Some(required), ..self }),
    {
        CommandOptionBuilder { required: Some(required), ..self }
    }

    /// Adds one choice, starting the list when none was added yet.
    pub fn choice(self, choice: Choice) -> (r: Self)
        ensures
            r.choices matches Some(list) && list@ == (match self.choices {
                Option::None => Seq::empty().push(choice),
                Option::Some(v) => v@.push(choice),
            }),
            r.kind == self.kind,
            r.name == self.name,
            r.description == self.description,
            r.required == self.required,
            r.options == self.options,
            r.min_value == self.min_value,
            r.max_value == self.max_value,
            r.min_length == self.min_length,
            r.max_length == self.max_length,
            r.autocomplete == self.autocomplete,
    {
        let mut choices = match self.choices {
            Some(v) => v,
            None => Vec::new(),
        };
        choices.push(choice);
        CommandOptionBuilder { choices: Some(choices), ..self }
    }

    /// Sets the whole choice list.
    pub fn choices(self, choices: Vec<Choice>) -> (r: Self)
        ensures
            r == (CommandOptionBuilder { choices: Some(choices), ..self }),
    {
        CommandOptionBuilder { choices: Some(choices), ..self }
    }

    /// Adds one nested sub-option, starting the list when none was added
    /// yet.
    pub fn option(self, option: CommandOption) -> (r: Self)
        ensures
            r.options matches Some(list) && list@ == (match self.options {
                Option::None => Seq::empty().push(option),
                Option::Some(v) => v@.push(option),
            }),
            r.kind == self.kind,
            r.name == self.name,
            r.description == self.description,
            r.required == self.required,
            r.choices == self.choices,
            r.min_value == self.min_value,
            r.max_value == self.max_value,
            r.min_length == self.min_length,
            r.max_length == self.max_length,
            r.autocomplete == self.autocomplete,
    {
        let mut options = match self.options {
            Some(v) => v,
            None => Vec::new(),
        };
        options.push(option);
        CommandOptionBuilder { options: Some(options), ..self }
    }

    /// Sets the whole sub-option list.
    pub fn options(self, options: Vec<CommandOption>) -> (r: Self)
        ensures
            r == (CommandOptionBuilder { options: Some(options), ..self }),
    {
        CommandOptionBuilder { options: Some(options), ..self }
    }

    /// Sets the minimum numeric value of the option.
    pub fn min_value(self, min_value: ChoiceValue) -> (r: Self)
        ensures
            r == (CommandOptionBuilder { min_value: Some(min_value), ..self }),
    {
        CommandOptionBuilder { min_value: Some(min_value), ..self }
    }

    /// Sets the maximum numeric value of the option.
    pub fn max_value(self, max_value: ChoiceValue) -> (r: Self)
        ensures
            r == (CommandOptionBuilder { max_value: Some(max_value), ..self }),
    {
        CommandOptionBuilder { max_value: Some(max_value), ..self }
    }

    /// Sets the minimum length of the option.
    pub fn min_length(self, min_length: ChoiceValue) -> (r: Self)
        ensures
            r == (CommandOptionBuilder { min_length: Some(min_length), ..self }),
    {
        CommandOptionBuilder { min_length: Some(min_length), ..self }
    }

    /// Sets the maximum length of the option.
    pub fn max_length(self, max_length: ChoiceValue) -> (r: Self)
        ensures
            r == (CommandOptionBuilder { max_length: Some(max_length), ..self }),
    {
        CommandOptionBuilder { max_length: Some(max_length), ..self }
    }

    /// Sets whether the option autocompletes.
    pub fn autocomplete(self, autocomplete: bool) -> (r: Self)
        ensures
            r == (CommandOptionBuilder { autocomplete: Some(autocomplete), ..self }),
    {
        CommandOptionBuilder { autocomplete: Some(autocomplete), ..self }
    }

    /// Builds the option.  Checks run in order and fail fast: kind, name,
    /// and description must be set; the numeric bounds must not be strings;
    /// the length bounds must be integers, the minimum within [0, 6000] and
    /// the maximum within [1, 6000].
    pub fn build(self) -> (r: Result<CommandOption, CodecError>)
        ensures
            r is Ok <==> ({
                &&& self.kind is Some
                &&& self.name is Some
                &&& self.description is Some
                &&& !(opt_value_model(self.min_value) matches Some(ChoiceValueModel::String(_)))
                &&& !(opt_value_model(self.max_value) matches Some(ChoiceValueModel::String(_)))
                &&& (match opt_value_model(self.min_length) {
                    Option::None => true,
                    Option::Some(v) => v matches ChoiceValueModel::Int(i) && 0 <= i <= 6000,
                })
                &&& (match opt_value_model(self.max_length) {
                    Option::None => true,
                    Option::Some(v) => v matches ChoiceValueModel::Int(i) && 1 <= i <= 6000,
                })
            }),
            r matches Ok(o) ==> ({
                &&& o@.kind == self.kind->Some_0
                &&& o@.name == self.name->Some_0@
                &&& o@.description == self.description->Some_0@
                &&& o@.required == self.required
                &&& o@.choices == opt_choices_model(self.choices)
                &&& o@.options == opt_options_model(self.options)
                &&& o@.min_value == opt_value_model(self.min_value)
                &&& o@.max_value == opt_value_model(self.max_value)
                &&& o@.min_length == opt_value_model(self.min_length)
                &&& o@.max_length == opt_value_model(self.max_length)
                &&& o@.autocomplete == self.autocomplete
            }),
            self.kind is None ==> (r matches Err(CodecError::MissingRequiredField(f)) && f@
                == "kind"@),
            (self.kind is Some && self.name is None) ==> (r matches Err(
                CodecError::MissingRequiredField(f),
            ) && f@ == "name"@),
            (self.kind is Some && self.name is Some && self.description is None) ==> (r matches Err(
                CodecError::MissingRequiredField(f),
            ) && f@ == "description"@),
            (self.kind is Some && self.name is Some && self.description is Some
                && opt_value_model(self.min_value) matches Some(ChoiceValueModel::String(_))) ==> (
            r matches Err(CodecError::TypeMismatch(e, a)) && e@ == "integer or double"@ && a@
                == "string"@),
            (self.kind is Some && self.name is Some && self.description is Some && !(
            opt_value_model(self.min_value) matches Some(ChoiceValueModel::String(_)))
                && opt_value_model(self.max_value) matches Some(ChoiceValueModel::String(_))) ==> (
            r matches Err(CodecError::TypeMismatch(e, a)) && e@ == "integer or double"@ && a@
                == "string"@),
            (self.kind is Some && self.name is Some && self.description is Some && !(
            opt_value_model(self.min_value) matches Some(ChoiceValueModel::String(_))) && !(
            opt_value_model(self.max_value) matches Some(ChoiceValueModel::String(_)))) ==> (match
            opt_value_model(self.min_length) {
                Option::None => true,
                Option::Some(ChoiceValueModel::Int(i)) => !(0 <= i <= 6000) ==> (r matches Err(
                    CodecError::InvalidFieldRange(f, lo, hi),
                ) && f@ == "min_length"@ && lo == 0 && hi == 6000),
                Option::Some(v) => r matches Err(CodecError::TypeMismatch(e, a)) && e@
                    == "integer"@ && a@ == spec_choice_value_kind_name(v)@,
            }),
            (self.kind is Some && self.name is Some && self.description is Some && !(
            opt_value_model(self.min_value) matches Some(ChoiceValueModel::String(_))) && !(
            opt_value_model(self.max_value) matches Some(ChoiceValueModel::String(_))) && (match
            opt_value_model(self.min_length) {
                Option::None => true,
                Option::Some(v) => v matches ChoiceValueModel::Int(i) && 0 <= i <= 6000,
            })) ==> (match opt_value_model(self.max_length) {
                Option::None => true,
                Option::Some(ChoiceValueModel::Int(i)) => !(1 <= i <= 6000) ==> (r matches Err(
                    CodecError::InvalidFieldRange(f, lo, hi),
                ) && f@ == "max_length"@ && lo == 1 && hi == 6000),
                Option::Some(v) => r matches Err(CodecError::TypeMismatch(e, a)) && e@
                    == "integer"@ && a@ == spec_choice_value_kind_name(v)@,
            }),
    {
        let kind = match self.kind {
            Some(k) => k,
            None => {
                return Err(CodecError::MissingRequiredField("kind"));
            },
        };
        let name = match self.name {
            Some(n) => n,
            None => {
                return Err(CodecError::MissingRequiredField("name"));
            },
        };
        let description = match self.description {
            Some(d) => d,
            None => {
                return Err(CodecError::MissingRequiredField("description"));
            },
        };
        match &self.min_value {
            Some(ChoiceValue::String(_)) => {
                return Err(CodecError::TypeMismatch("integer or double", "string"));
            },
            _ => (),
        }
        match &self.max_value {
            Some(ChoiceValue::String(_)) => {
                return Err(CodecError::TypeMismatch("integer or double", "string"));
            },
            _ => (),
        }
        match &self.min_length {
            None => (),
            Some(v) => match v {
                ChoiceValue::Int(i) => match check_range("min_length", *i as i64, 0, 6000) {
                    Ok(()) => (),
                    Err(e) => {
                        return Err(e);
                    },
                },
                _ => {
                    return Err(CodecError::TypeMismatch("integer", choice_value_kind_name(v)));
                },
            },
        }
        match &self.max_length {
            None => (),
            Some(v) => match v {
                ChoiceValue::Int(i) => match check_range("max_length", *i as i64, 1, 6000) {
                    Ok(()) => (),
                    Err(e) => {
                        return Err(e);
                    },
                },
                _ => {
                    return Err(CodecError::TypeMismatch("integer", choice_value_kind_name(v)));
                },
            },
        }
        Ok(
            CommandOption {
                kind,
                name,
                description,
                required: self.required,
                choices: self.choices,
                options: self.options,
                min_value: self.min_value,
                max_value: self.max_value,
                min_length: self.min_length,
                max_length: self.max_length,
                autocomplete: self.autocomplete,
            },
        )
    }
}

/// The mathematical model of a registrable command.
pub struct CommandModel {
    /// The command's name.
    pub name: Seq<char>,
    /// The command's kind.
    pub kind: CommandKind,
    /// The command's description; empty when it was never set.
    pub description: Seq<char>,
    /// The command's options, once any was added.
    pub options: Option<Seq<CommandOptionModel>>,
}

/// A registrable command: a name, a kind, a description, and optional
/// options.  Built only through [`CommandBuilder`].
#[derive(Debug)]
pub struct Command {
    name: String,
    kind: CommandKind,
    description: String,
    options: Option<Vec<CommandOption>>,
}

impl Command {
    /// The mathematical model of this command.
    pub closed spec fn model(self) -> CommandModel {
        CommandModel {
            name: self.name@,
            kind: self.kind,
            description: self.description@,
            options: match self.options {
                Option::None => None,
                Option::Some(list) => Some(model_option_seq(list@)),
            },
        }
    }
}

impl View for Command {
    type V = CommandModel;

    closed spec fn view(&self) -> CommandModel {
        self.model()
    }
}

/// Whether a command can be encoded: every option can be, recursively.
pub open spec fn command_encodable(c: CommandModel) -> bool {
    match c.options {
        Option::None => true,
        Option::Some(list) => options_encodable(list),
    }
}

/// The wire form of a command: `name`, `type`, and `description` always,
/// and `options` only when any option was added.
pub open spec fn spec_command_wire(c: CommandModel) -> WireModel {
    WireModel::Object(
        seq![
            ("name"@, WireModel::Text(c.name)),
            ("type"@, WireModel::UInt(c.kind.spec_wire() as u64)),
            ("description"@, WireModel::Text(c.description)),
        ] + opt_field(
            "options"@,
            match c.options {
                Option::None => None,
                Option::Some(list) => Some(WireModel::Array(spec_options_wire(list))),
            },
        ),
    )
}

impl Command {
    /// Encodes this command as a wire object: `name`, `type`, and
    /// `description` always, and `options` only when any option was added.
    pub fn encode(&self) -> (r: Result<WireValue, CodecError>)
        ensures
            r is Ok <==> command_encodable(self@),
            r matches Ok(w) ==> w@ == spec_command_wire(self@),
    {
        let ghost c = self@;
        let mut fields: Vec<WireField> = Vec::new();
        fields.push(
            WireField { key: "name".to_owned(), value: WireValue::Text(self.name.clone()) },
        );
        fields.push(
            WireField { key: "type".to_owned(), value: WireValue::UInt(self.kind.wire() as u64) },
        );
        fields.push(
            WireField {
                key: "description".to_owned(),
                value: WireValue::Text(self.description.clone()),
            },
        );
        let ghost base: Seq<(Seq<char>, WireModel)> = seq![
            ("name"@, WireModel::Text(c.name)),
            ("type"@, WireModel::UInt(c.kind.spec_wire() as u64)),
            ("description"@, WireModel::Text(c.description)),
        ];
        proof {
            crate::wire::lemma_model_fields(fields@);
            assert(model_fields(fields@) =~= base);
        }
        match &self.options {
            None => (),
            Some(list) => match encode_option_list(list) {
                Ok(ws) => {
                    let ghost pre = fields@;
                    let ghost wsm = model_seq(ws@);
                    let wf = WireField { key: "options".to_owned(), value: WireValue::Array(ws) };
                    fields.push(wf);
                    proof {
                        crate::wire::lemma_model_fields_push(pre, wf);
                        assert(wf.value.model() == WireModel::Array(wsm));
                    }
                },
                Err(e) => {
                    return Err(e);
                },
            },
        }
        proof {
            assert(model_fields(fields@) =~= spec_command_wire(c)->Object_0);
        }
        Ok(WireValue::Object(fields))
    }
}

/// A builder for [`Command`]: accumulates the optional fields and validates
/// them at [`CommandBuilder::build`].
pub struct CommandBuilder {
    /// The command's name, once set.
    pub name: Option<String>,
    /// The command's kind, once set.
    pub kind: Option<CommandKind>,
    /// The command's description, once set; it defaults to empty.
    pub description: Option<String>,
    /// The command's options, once any was added.
    pub options: Option<Vec<CommandOption>>,
}

impl CommandBuilder {
    /// Starts a builder with no field set.
    pub fn new() -> (r: Self)
        ensures
            r.name is None,
            r.kind is None,
            r.description is None,
            r.options is None,
    {
        CommandBuilder { name: None, kind: None, description: None, options: None }
    }

    /// Sets the name of the command.
    pub fn name(self, name: String) -> (r: Self)
        ensures
            r == (CommandBuilder { name: Some(name), ..self }),
    {
        CommandBuilder { name: Some(name), ..self }
    }

    /// Sets the kind of the command.
    pub fn kind(self, kind: CommandKind) -> (r: Self)
        ensures
            r == (CommandBuilder { kind: Some(kind), ..self }),
    {
        CommandBuilder { kind: Some(kind), ..self }
    }

    /// Sets the description of the command.
    pub fn description(self, description: String) -> (r: Self)
        ensures
            r == (CommandBuilder { description: Some(description), ..self }),
    {
        CommandBuilder { description: Some(description), ..self }
    }

    /// Adds one option, starting the list when none was added yet.
    pub fn option(self, option: CommandOption) -> (r: Self)
        ensures
            r.options matches Some(list) && list@ == (match self.options {
                Option::None => Seq::empty().push(option),
                Option::Some(v) => v@.push(option),
            }),
            r.name == self.name,
            r.kind == self.kind,
            r.description == self.description,
    {
        let mut options = match self.options {
            Some(v) => v,
            None => Vec::new(),
        };
        options.push(option);
        CommandBuilder { options: Some(options), ..self }
    }

    /// Sets the whole option list.
    pub fn options(self, options: Vec<CommandOption>) -> (r: Self)
        ensures
            r == (CommandBuilder { options: Some(options), ..self }),
    {
        CommandBuilder { options: Some(options), ..self }
    }

    /// Builds the command.  Checks run in order and fail fast: the name and
    /// the kind must be set; the description defaults to the empty string.
    pub fn build(self) -> (r: Result<Command, CodecError>)
        ensures
            r is Ok <==> self.name is Some && self.kind is Some,
            r matches Ok(c) ==> ({
                &&& c@.name == self.name->Some_0@
                &&& c@.kind == self.kind->Some_0
                &&& c@.description == (match self.description {
                    Option::None => Seq::<char>::empty(),
                    Option::Some(d) => d@,
                })
                &&& c@.options == opt_options_model(self.options)
            }),
            self.name is None ==> (r matches Err(CodecError::MissingRequiredField(f)) && f@
                == "name"@),
            (self.name is Some && self.kind is None) ==> (r matches Err(
                CodecError::MissingRequiredField(f),
            ) && f@ == "kind"@),
    {
        let name = match self.name {
            Some(n) => n,
            None => {
                return Err(CodecError::MissingRequiredField("name"));
            },
        };
        let kind = match self.kind {
            Some(k) => k,
            None => {
                return Err(CodecError::MissingRequiredField("kind"));
            },
        };
        let description = match self.description {
            Some(d) => d,
            None => String::new(),
        };
        Ok(Command { name, kind, description, options: self.options })
    }
}

/// The models of a sequence of commands, element by element.
pub open spec fn model_command_seq(items: Seq<Command>) -> Seq<CommandModel>
    decreases items.len(),
{
    if items.len() == 0 {
        Seq::empty()
    } else {
        seq![items[0]@] + model_command_seq(items.drop_first())
    }
}

proof fn lemma_model_command_seq(items: Seq<Command>)
    ensures
        model_command_seq(items).len() == items.len(),
        forall|i: int| 0 <= i < items.len() ==> model_command_seq(items)[i] == items[i]@,
    decreases items.len(),
{
    if items.len() > 0 {
        lemma_model_command_seq(items.drop_first());
    }
}

/// Whether every command in a list can be encoded.
pub open spec fn commands_encodable(cs: Seq<CommandModel>) -> bool {
    forall|i: int| 0 <= i < cs.len() ==> command_encodable(#[trigger] cs[i])
}

/// The wire forms of a sequence of commands, element by element.
pub open spec fn spec_commands_wire(cs: Seq<CommandModel>) -> Seq<WireModel>
    decreases cs.len(),
{
    if cs.len() == 0 {
        Seq::empty()
    } else {
        seq![spec_command_wire(cs[0])] + spec_commands_wire(cs.drop_first())
    }
}

proof fn lemma_spec_commands_wire(cs: Seq<CommandModel>)
    ensures
        spec_commands_wire(cs).len() == cs.len(),
        forall|i: int| 0 <= i < cs.len() ==> spec_commands_wire(cs)[i] == spec_command_wire(cs[i]),
    decreases cs.len(),
{
    if cs.len() > 0 {
        lemma_spec_commands_wire(cs.drop_first());
    }
}

/// Encodes a command list as the wire array that a registration request
/// carries, stopping at the first command that fails.
pub fn encode_commands(cmds: &Vec<Command>) -> (r: Result<WireValue, CodecError>)
    ensures
        r is Ok <==> commands_encodable(model_command_seq(cmds@)),
        r matches Ok(w) ==> w@ == WireModel::Array(
            spec_commands_wire(model_command_seq(cmds@)),
        ),
{
    let ghost ms = model_command_seq(cmds@);
    proof {
        lemma_model_command_seq(cmds@);
        lemma_spec_commands_wire(ms);
    }
    let mut out: Vec<WireValue> = Vec::new();
    let n = cmds.len();
    let mut i: usize = 0;
    while i < n
        invariant
            n == cmds@.len(),
            i <= n,
            out@.len() == i as int,
            ms == model_command_seq(cmds@),
            ms.len() == cmds@.len(),
            forall|j: int| 0 <= j < cmds@.len() ==> ms[j] == cmds@[j]@,
            forall|j: int| 0 <= j < i ==> command_encodable(#[trigger] ms[j]),
            forall|j: int| 0 <= j < i ==> #[trigger] out@[j].model() == spec_command_wire(ms[j]),
        decreases n - i,
    {
        match cmds[i].encode() {
            Ok(w) => {
                proof {
                    assert(w.model() == spec_command_wire(ms[i as int]));
                }
                out.push(w);
            },
            Err(e) => {
                proof {
                    assert(!command_encodable(ms[i as int]));
                }
                return Err(e);
            },
        }
        i += 1;
    }
    proof {
        lemma_spec_commands_wire(ms);
        crate::wire::lemma_model_seq(out@);
        assert forall|j: int| 0 <= j < out@.len() implies model_seq(out@)[j] == spec_commands_wire(
            ms,
        )[j] by {
            assert(model_seq(out@)[j] == out@[j].model());
            assert(spec_commands_wire(ms)[j] == spec_command_wire(ms[j]));
        }
        assert(model_seq(out@) =~= spec_commands_wire(ms));
    }
    Ok(WireValue::Array(out))
}

/// Law: an option that sets only a kind, a name, and a description always
/// encodes, and its wire form holds exactly the fields `type`, `name`, and
/// `description`, omitting every field whose builder input was never set.
pub proof fn lemma_minimal_option_wire(o: CommandOptionModel)
    requires
        o.required is None,
        o.choices is None,
        o.options is None,
        o.min_value is None,
        o.max_value is None,
        o.min_length is None,
        o.max_length is None,
        o.autocomplete is None,
    ensures
        option_encodable(o),
        spec_option_wire(o) == WireModel::Object(
            seq![
                ("type"@, WireModel::UInt(o.kind.spec_wire() as u64)),
                ("name"@, WireModel::Text(o.name)),
                ("description"@, WireModel::Text(o.description)),
            ],
        ),
{
    assert(spec_option_wire(o)->Object_0 =~= seq![
        ("type"@, WireModel::UInt(o.kind.spec_wire() as u64)),
        ("name"@, WireModel::Text(o.name)),
        ("description"@, WireModel::Text(o.description)),
    ]);
}

} // verus!
