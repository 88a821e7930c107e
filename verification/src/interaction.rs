//! Decoding of inbound interaction events.
//!
//! An inbound event arrives as a wire envelope: a numeric kind discriminant
//! plus an optional payload.  A command payload decodes into a read-only
//! tree of option nodes that mirrors the shape the command was registered
//! with; the tree is trusted structurally only, never validated beyond
//! type-matching, because it reflects caller-controlled input.

use vstd::prelude::*;

use crate::errors::CodecError;
use crate::types::{
    scalar_decodable, spec_scalar, CommandKind, CommandOptionKind, MultiTypeValue,
    MultiTypeValueModel, Snowflake,
};
use crate::wire::{lemma_lookup_decreases, obj_lookup, shape_name, WireModel, WireValue};

verus! {

broadcast use vstd::seq::group_seq_axioms;

/// The mathematical model of one decoded option node.
pub struct CommandInteractionDataModel {
    /// The node's name.
    pub name: Seq<char>,
    /// The node's option kind.
    pub kind: CommandOptionKind,
    /// The node's scalar value, when the payload carried one.
    pub value: Option<MultiTypeValueModel>,
    /// The node's children, when the payload carried a list.
    pub options: Option<Seq<CommandInteractionDataModel>>,
    /// Whether the node is focused, when the payload said so.
    pub focused: Option<bool>,
}

/// One decoded option node of a command invocation: a name, an option kind,
/// and optionally a scalar value, nested child nodes, and a focused flag.
#[derive(Debug)]
pub struct CommandInteractionData {
    name: String,
    kind: CommandOptionKind,
    value: Option<MultiTypeValue>,
    options: Option<Vec<CommandInteractionData>>,
    focused: Option<bool>,
}

impl CommandInteractionData {
    /// The mathematical model of this node.
    pub closed spec fn model(self) -> CommandInteractionDataModel
        decreases self,
    {
        CommandInteractionDataModel {
            name: self.name@,
            kind: self.kind,
            value: match self.value {
                Option::None => None,
                Option::Some(v) => Some(v@),
            },
            options: match self.options {
                Option::None => None,
                Option::Some(list) => {
                    proof {
                        vstd::std_specs::vec::axiom_vec_decreases_to_view(list);
                    }
                    Some(model_node_seq(list@))
                },
            },
            focused: self.focused,
        }
    }
}

/// The models of a sequence of decoded nodes, element by element.
pub open spec fn model_node_seq(items: Seq<CommandInteractionData>) -> Seq<
    CommandInteractionDataModel,
>
    decreases items,
{
    if items.len() == 0 {
        Seq::empty()
    } else {
        proof {
            vstd::seq::axiom_seq_index_decreases(items, 0);
            vstd::seq::axiom_seq_subrange_decreases(items, 1, items.len() as int);
        }
        seq![items[0].model()] + model_node_seq(items.drop_first())
    }
}

proof fn lemma_model_node_seq(items: Seq<CommandInteractionData>)
    ensures
        model_node_seq(items).len() == items.len(),
        forall|i: int| 0 <= i < items.len() ==> model_node_seq(items)[i] == items[i].model(),
    decreases items.len(),
{
    if items.len() > 0 {
        lemma_model_node_seq(items.drop_first());
    }
}

impl View for CommandInteractionData {
    type V = CommandInteractionDataModel;

    closed spec fn view(&self) -> CommandInteractionDataModel {
        self.model()
    }
}

/// Whether a wire tree decodes as one option node: an object whose `name`
/// is text, whose `type` is a recognized option-kind discriminant, and whose
/// optional `value`, `options`, and `focused` fields are a scalar, an array
/// of decodable nodes, and a boolean respectively.  An absent optional field
/// and a null one both count as absent.
pub open spec fn tree_decodable(m: WireModel) -> bool
    decreases m,
{
    match m {
        WireModel::Object(fs) => {
            &&& (obj_lookup(fs, "name"@) matches Some(n) && n is Text)
            &&& (obj_lookup(fs, "type"@) matches Some(t) && t matches WireModel::UInt(d)
                && CommandOptionKind::spec_from_wire(d) is Some)
            &&& (match obj_lookup(fs, "value"@) {
                Option::None => true,
                Option::Some(WireModel::Null) => true,
                Option::Some(v) => scalar_decodable(v),
            })
            &&& (match obj_lookup(fs, "options"@) {
                Option::None => true,
                Option::Some(WireModel::Null) => true,
                Option::Some(o) => match o {
                    WireModel::Array(items) => {
                        proof {
                            lemma_lookup_decreases(fs, "options"@);
                        }
                        trees_decodable(items)
                    },
                    _ => false,
                },
            })
            &&& (match obj_lookup(fs, "focused"@) {
                Option::None => true,
                Option::Some(WireModel::Null) => true,
                Option::Some(f) => f is Bool,
            })
        },
        _ => false,
    }
}

/// Whether every wire tree in a sequence decodes as an option node.
pub open spec fn trees_decodable(items: Seq<WireModel>) -> bool
    decreases items,
{
    if items.len() == 0 {
        true
    } else {
        proof {
            vstd::seq::axiom_seq_index_decreases(items, 0);
            vstd::seq::axiom_seq_subrange_decreases(items, 1, items.len() as int);
        }
        tree_decodable(items[0]) && trees_decodable(items.drop_first())
    }
}

/// A sequence of wire trees is decodable exactly when each element is.
pub proof fn lemma_trees_decodable(items: Seq<WireModel>)
    ensures
        trees_decodable(items) <==> (forall|j: int|
            0 <= j < items.len() ==> tree_decodable(#[trigger] items[j])),
    decreases items.len(),
{
    if items.len() > 0 {
        lemma_trees_decodable(items.drop_first());
        if trees_decodable(items) {
            assert forall|j: int| 0 <= j < items.len() implies tree_decodable(
                #[trigger] items[j],
            ) by {
                if j > 0 {
                    assert(items[j] == items.drop_first()[j - 1]);
                    assert(tree_decodable(items.drop_first()[j - 1]));
                }
            }
        }
        if forall|j: int| 0 <= j < items.len() ==> tree_decodable(#[trigger] items[j]) {
            assert forall|j: int| 0 <= j < items.drop_first().len() implies tree_decodable(
                #[trigger] items.drop_first()[j],
            ) by {
                assert(items.drop_first()[j] == items[j + 1]);
            }
            assert(trees_decodable(items));
        }
    }
}

/// The node a decodable wire tree decodes to.
pub open spec fn spec_tree(m: WireModel) -> CommandInteractionDataModel
    recommends
        tree_decodable(m),
    decreases m,
{
    match m {
        WireModel::Object(fs) => CommandInteractionDataModel {
            name: obj_lookup(fs, "name"@)->Some_0->Text_0,
            kind: CommandOptionKind::spec_from_wire(
                obj_lookup(fs, "type"@)->Some_0->UInt_0,
            )->Some_0,
            value: match obj_lookup(fs, "value"@) {
                Option::None => None,
                Option::Some(WireModel::Null) => None,
                Option::Some(v) => Some(spec_scalar(v)),
            },
            options: match obj_lookup(fs, "options"@) {
                Option::None => None,
                Option::Some(WireModel::Null) => None,
                Option::Some(WireModel::Array(items)) => {
                    proof {
                        lemma_lookup_decreases(fs, "options"@);
                    }
                    Some(spec_tree_seq(items))
                },
                Option::Some(_) => None,
            },
            focused: match obj_lookup(fs, "focused"@) {
                Option::None => None,
                Option::Some(WireModel::Bool(b)) => Some(b),
                Option::Some(_) => None,
            },
        },
        _ => CommandInteractionDataModel {
            name: Seq::empty(),
            kind: CommandOptionKind::SubCommand,
            value: None,
            options: None,
            focused: None,
        },
    }
}

/// The nodes a sequence of decodable wire trees decodes to, element by
/// element.
pub open spec fn spec_tree_seq(items: Seq<WireModel>) -> Seq<CommandInteractionDataModel>
    recommends
        trees_decodable(items),
    decreases items,
{
    if items.len() == 0 {
        Seq::empty()
    } else {
        proof {
            vstd::seq::axiom_seq_index_decreases(items, 0);
            vstd::seq::axiom_seq_subrange_decreases(items, 1, items.len() as int);
        }
        seq![spec_tree(items[0])] + spec_tree_seq(items.drop_first())
    }
}

/// Decoding a sequence of wire trees keeps the length and decodes each
/// element in place.
pub proof fn lemma_spec_tree_seq(items: Seq<WireModel>)
    ensures
        spec_tree_seq(items).len() == items.len(),
        forall|j: int| 0 <= j < items.len() ==> spec_tree_seq(items)[j] == spec_tree(items[j]),
    decreases items.len(),
{
    if items.len() > 0 {
        lemma_spec_tree_seq(items.drop_first());
    }
}

/// Decodes each element of a wire array as an option node, in order,
/// stopping at the first element that fails.
fn decode_tree_list(items: &Vec<WireValue>) -> (r: Result<Vec<CommandInteractionData>, CodecError>)
    ensures
        r is Ok <==> trees_decodable(crate::wire::model_seq(items@)),
        r matches Ok(list) ==> model_node_seq(list@) == spec_tree_seq(
            crate::wire::model_seq(items@),
        ),
    decreases *items,
{
    let ghost ms = crate::wire::model_seq(items@);
    proof {
        crate::wire::lemma_model_seq(items@);
        lemma_trees_decodable(ms);
        lemma_spec_tree_seq(ms);
    }
    let mut out: Vec<CommandInteractionData> = Vec::new();
    let n = items.len();
    let mut i: usize = 0;
    while i < n
        invariant
            n == items@.len(),
            i <= n,
            out@.len() == i as int,
            ms == crate::wire::model_seq(items@),
            ms.len() == items@.len(),
            forall|j: int| 0 <= j < items@.len() ==> ms[j] == items@[j].model(),
            forall|j: int| 0 <= j < i ==> tree_decodable(#[trigger] ms[j]),
            forall|j: int| 0 <= j < i ==> #[trigger] out@[j].model() == spec_tree(ms[j]),
        decreases n - i,
    {
        proof {
            vstd::std_specs::vec::axiom_vec_index_decreases(*items, i as int);
        }
        match CommandInteractionData::decode(&items[i]) {
            Ok(d) => {
                out.push(d);
            },
            Err(e) => {
                proof {
                    assert(!tree_decodable(ms[i as int]));
                    lemma_trees_decodable(ms);
                }
                return Err(e);
            },
        }
        i += 1;
    }
    proof {
        lemma_trees_decodable(ms);
        lemma_spec_tree_seq(ms);
        lemma_model_node_seq(out@);
        assert forall|j: int| 0 <= j < ms.len() implies model_node_seq(out@)[j] == spec_tree_seq(
            ms,
        )[j] by {
            assert(model_node_seq(out@)[j] == out@[j].model());
            assert(out@[j].model() == spec_tree(ms[j]));
        }
        assert(model_node_seq(out@) =~= spec_tree_seq(ms));
    }
    Ok(out)
}

/// Whether a field list carries a textual `name`, a node's first check.
pub open spec fn name_field_ok(fs: Seq<(Seq<char>, WireModel)>) -> bool {
    obj_lookup(fs, "name"@) matches Some(n) && n is Text
}

/// The error a failed `name` check reports.
pub open spec fn name_field_error(fs: Seq<(Seq<char>, WireModel)>, r: Result<
    CommandInteractionData,
    CodecError,
>) -> bool {
    match obj_lookup(fs, "name"@) {
        Option::None => r matches Err(CodecError::MissingRequiredField(f)) && f@ == "name"@,
        Option::Some(n) => !(n is Text) ==> (r matches Err(CodecError::TypeMismatch(e, a)) && e@
            == "string"@ && a@ == crate::wire::spec_shape_name(n)@),
    }
}

/// Whether a field list carries a recognized option-kind discriminant
/// under `type`, a node's second check.
pub open spec fn option_kind_field_ok(fs: Seq<(Seq<char>, WireModel)>) -> bool {
    obj_lookup(fs, "type"@) matches Some(t) && t matches WireModel::UInt(d)
        && CommandOptionKind::spec_from_wire(d) is Some
}

/// The error a failed option-kind check reports.
pub open spec fn option_kind_field_error(fs: Seq<(Seq<char>, WireModel)>, r: Result<
    CommandInteractionData,
    CodecError,
>) -> bool {
    match obj_lookup(fs, "type"@) {
        Option::None => r matches Err(CodecError::MissingRequiredField(f)) && f@ == "type"@,
        Option::Some(WireModel::UInt(d)) => CommandOptionKind::spec_from_wire(d) is None ==> (
        r matches Err(CodecError::UnknownDiscriminant(v)) && v == d),
        Option::Some(t) => r matches Err(CodecError::TypeMismatch(e, a)) && e@ == "integer"@ && a@
            == crate::wire::spec_shape_name(t)@,
    }
}

impl CommandInteractionData {
    /// Decodes one option node from a wire tree: structural type-matching
    /// only, with the first violated rule's error.
    pub fn decode(w: &WireValue) -> (r: Result<CommandInteractionData, CodecError>)
        ensures
            r is Ok <==> tree_decodable(w@),
            r matches Ok(d) ==> d@ == spec_tree(w@),
            match w@ {
                WireModel::Object(fs) => {
                    &&& name_field_error(fs, r)
                    &&& name_field_ok(fs) ==> option_kind_field_error(fs, r)
                    &&& (name_field_ok(fs) && option_kind_field_ok(fs)) ==> (match obj_lookup(
                        fs,
                        "value"@,
                    ) {
                        Option::None => true,
                        Option::Some(v) => (!(v is Null) && !scalar_decodable(v)) ==> (r matches Err(
                            CodecError::TypeMismatch(e, a),
                        ) && e@ == "scalar"@ && a@ == crate::wire::spec_shape_name(v)@),
                    })
                    &&& (name_field_ok(fs) && option_kind_field_ok(fs) && (match obj_lookup(
                        fs,
                        "value"@,
                    ) {
                        Option::None => true,
                        Option::Some(v) => v is Null || scalar_decodable(v),
                    })) ==> (match obj_lookup(fs, "options"@) {
                        Option::None => true,
                        Option::Some(o) => (!(o is Null) && !(o is Array)) ==> (r matches Err(
                            CodecError::TypeMismatch(e, a),
                        ) && e@ == "array"@ && a@ == crate::wire::spec_shape_name(o)@),
                    })
                },
                _ => r matches Err(CodecError::TypeMismatch(e, a)) && e@ == "object"@ && a@
                    == crate::wire::spec_shape_name(w@)@,
            },
        decreases *w,
    {
        match w {
            WireValue::Object(_) => (),
            _ => {
                return Err(CodecError::TypeMismatch("object", shape_name(w)));
            },
        }
        let name: String = match w.get("name") {
            Some(v) => match v {
                WireValue::Text(s) => s.clone(),
                _ => {
                    return Err(CodecError::TypeMismatch("string", shape_name(v)));
                },
            },
            None => {
                return Err(CodecError::MissingRequiredField("name"));
            },
        };
        let kind: CommandOptionKind = match w.get("type") {
            Some(v) => match v {
                WireValue::UInt(d) => {
                    if *d > 255 {
                        return Err(CodecError::UnknownDiscriminant(*d));
                    }
                    match CommandOptionKind::from_wire(*d as u8) {
                        Some(k) => k,
                        None => {
                            return Err(CodecError::UnknownDiscriminant(*d));
                        },
                    }
                },
                _ => {
                    return Err(CodecError::TypeMismatch("integer", shape_name(v)));
                },
            },
            None => {
                return Err(CodecError::MissingRequiredField("type"));
            },
        };
        let value: Option<MultiTypeValue> = match w.get("value") {
            None => None,
            Some(v) => match v {
                WireValue::Null => None,
                _ => match MultiTypeValue::decode(v) {
                    Ok(x) => Some(x),
                    Err(e) => {
                        return Err(e);
                    },
                },
            },
        };
        let options: Option<Vec<CommandInteractionData>> = match w.get("options") {
            None => None,
            Some(v) => match v {
                WireValue::Null => None,
                WireValue::Array(items) => {
                    proof {
                        assert(decreases_to!(*w => *items));
                    }
                    match decode_tree_list(items) {
                        Ok(list) => Some(list),
                        Err(e) => {
                            return Err(e);
                        },
                    }
                },
                _ => {
                    return Err(CodecError::TypeMismatch("array", shape_name(v)));
                },
            },
        };
        let focused: Option<bool> = match w.get("focused") {
            None => None,
            Some(v) => match v {
                WireValue::Null => None,
                WireValue::Bool(b) => Some(*b),
                _ => {
                    return Err(CodecError::TypeMismatch("boolean", shape_name(v)));
                },
            },
        };
        Ok(CommandInteractionData { name, kind, value, options, focused })
    }
}

/// The first node in a child list that carries the given name, in document
/// order, if any does.
pub open spec fn first_child(
    children: Seq<CommandInteractionDataModel>,
    name: Seq<char>,
) -> Option<CommandInteractionDataModel>
    decreases children.len(),
{
    if children.len() == 0 {
        None
    } else if children[0].name == name {
        Some(children[0])
    } else {
        first_child(children.drop_first(), name)
    }
}

proof fn lemma_first_child_hit(
    children: Seq<CommandInteractionDataModel>,
    name: Seq<char>,
    i: int,
)
    requires
        0 <= i < children.len(),
        forall|j: int| 0 <= j < i ==> children[j].name != name,
        children[i].name == name,
    ensures
        first_child(children, name) == Some(children[i]),
    decreases i,
{
    if i > 0 {
        lemma_first_child_hit(children.drop_first(), name, i - 1);
    }
}

proof fn lemma_first_child_miss(children: Seq<CommandInteractionDataModel>, name: Seq<char>)
    requires
        forall|j: int| 0 <= j < children.len() ==> children[j].name != name,
    ensures
        first_child(children, name) is None,
    decreases children.len(),
{
    if children.len() > 0 {
        lemma_first_child_miss(children.drop_first(), name);
    }
}

/// Scans a child list for the first node with the given name.
fn find_option<'a>(opts: &'a Vec<CommandInteractionData>, name: &str) -> (r: Option<
    &'a CommandInteractionData,
>)
    ensures
        match first_child(model_node_seq(opts@), name@) {
            Some(c) => r matches Some(x) && x@ == c,
            None => r is None,
        },
{
    proof {
        lemma_model_node_seq(opts@);
    }
    let wanted: String = name.to_owned();
    let n = opts.len();
    let mut i: usize = 0;
    while i < n
        invariant
            n == opts@.len(),
            i <= n,
            wanted@ == name@,
            forall|j: int| 0 <= j < i ==> #[trigger] opts@[j].model().name != name@,
        decreases n - i,
    {
        if opts[i].name == wanted {
            proof {
                lemma_model_node_seq(opts@);
                lemma_first_child_hit(model_node_seq(opts@), name@, i as int);
            }
            return Some(&opts[i]);
        }
        i += 1;
    }
    proof {
        lemma_model_node_seq(opts@);
        lemma_first_child_miss(model_node_seq(opts@), name@);
    }
    None
}

impl CommandInteractionData {
    /// Returns the name of this node.
    pub fn name(&self) -> (r: &str)
        ensures
            r@ == self@.name,
    {
        &self.name
    }

    /// Returns the option kind of this node.
    pub fn kind(&self) -> (r: &CommandOptionKind)
        ensures
            *r == self@.kind,
    {
        &self.kind
    }

    /// Returns the scalar value of this node, when the payload carried one.
    pub fn value(&self) -> (r: &Option<MultiTypeValue>)
        ensures
            match r {
                Some(v) => self@.value matches Some(mv) && v@ == mv,
                None => self@.value is None,
            },
    {
        &self.value
    }

    /// Returns the child nodes of this node, when the payload carried a
    /// list.
    pub fn options(&self) -> (r: &Option<Vec<CommandInteractionData>>)
        ensures
            match r {
                Some(list) => self@.options matches Some(ms) && model_node_seq(list@) == ms,
                None => self@.options is None,
            },
    {
        &self.options
    }

    /// Returns the first child with the given name, in document order, or
    /// nothing when there are no children or none carries the name.
    pub fn option<'a>(&'a self, name: &str) -> (r: Option<&'a CommandInteractionData>)
        ensures
            match self@.options {
                Some(children) => match first_child(children, name@) {
                    Some(c) => r matches Some(x) && x@ == c,
                    None => r is None,
                },
                None => r is None,
            },
    {
        match &self.options {
            Some(opts) => find_option(opts, name),
            None => None,
        }
    }

    /// Returns whether this node is focused, when the payload said so.
    pub fn focused(&self) -> (r: &Option<bool>)
        ensures
            *r == self@.focused,
    {
        &self.focused
    }
}

/// The mathematical model of a decoded command invocation.
pub struct CommandDataModel {
    /// The invoked command's identifier.
    pub id: Snowflake,
    /// The invoked command's name.
    pub name: Seq<char>,
    /// The invoked command's kind.
    pub kind: CommandKind,
    /// The invocation's option nodes, when the payload carried a list.
    pub options: Option<Seq<CommandInteractionDataModel>>,
    /// The guild the command was invoked in, when the payload named one.
    pub guild_id: Option<Snowflake>,
    /// The entity the command targets, when the payload named one.
    pub target_id: Option<Snowflake>,
}

/// The decoded top of a command invocation: identifier, name, command kind,
/// optional option nodes, and optional guild and target identifiers.
#[derive(Debug)]
pub struct CommandData {
    id: Snowflake,
    name: String,
    kind: CommandKind,
    options: Option<Vec<CommandInteractionData>>,
    guild_id: Option<Snowflake>,
    target_id: Option<Snowflake>,
}

impl CommandData {
    /// The mathematical model of this invocation.
    pub closed spec fn model(self) -> CommandDataModel {
        CommandDataModel {
            id: self.id,
            name: self.name@,
            kind: self.kind,
            options: match self.options {
                Option::None => None,
                Option::Some(list) => Some(model_node_seq(list@)),
            },
            guild_id: self.guild_id,
            target_id: self.target_id,
        }
    }
}

impl View for CommandData {
    type V = CommandDataModel;

    closed spec fn view(&self) -> CommandDataModel {
        self.model()
    }
}

/// Whether a wire tree decodes as the top of a command invocation: an
/// object whose `id` is an unsigned integer, whose `name` is text, whose
/// `type` is a recognized command-kind discriminant, and whose optional
/// `options`, `guild_id`, and `target_id` fields are an array of decodable
/// nodes and unsigned integers respectively.  An absent optional field and
/// a null one both count as absent.
pub open spec fn cmd_data_decodable(m: WireModel) -> bool {
    match m {
        WireModel::Object(fs) => {
            &&& (obj_lookup(fs, "id"@) matches Some(v) && v is UInt)
            &&& (obj_lookup(fs, "name"@) matches Some(n) && n is Text)
            &&& (obj_lookup(fs, "type"@) matches Some(t) && t matches WireModel::UInt(d)
                && CommandKind::spec_from_wire(d) is Some)
            &&& (match obj_lookup(fs, "options"@) {
                Option::None => true,
                Option::Some(WireModel::Null) => true,
                Option::Some(WireModel::Array(items)) => trees_decodable(items),
                Option::Some(_) => false,
            })
            &&& (match obj_lookup(fs, "guild_id"@) {
                Option::None => true,
                Option::Some(WireModel::Null) => true,
                Option::Some(g) => g is UInt,
            })
            &&& (match obj_lookup(fs, "target_id"@) {
                Option::None => true,
                Option::Some(WireModel::Null) => true,
                Option::Some(g) => g is UInt,
            })
        },
        _ => false,
    }
}

/// The invocation top a decodable wire tree decodes to.
pub open spec fn spec_cmd_data(m: WireModel) -> CommandDataModel
    recommends
        cmd_data_decodable(m),
{
    match m {
        WireModel::Object(fs) => CommandDataModel {
            id: obj_lookup(fs, "id"@)->Some_0->UInt_0,
            name: obj_lookup(fs, "name"@)->Some_0->Text_0,
            kind: CommandKind::spec_from_wire(obj_lookup(fs, "type"@)->Some_0->UInt_0)->Some_0,
            options: match obj_lookup(fs, "options"@) {
                Option::None => None,
                Option::Some(WireModel::Null) => None,
                Option::Some(WireModel::Array(items)) => Some(spec_tree_seq(items)),
                Option::Some(_) => None,
            },
            guild_id: match obj_lookup(fs, "guild_id"@) {
                Option::None => None,
                Option::Some(WireModel::UInt(g)) => Some(g),
                Option::Some(_) => None,
            },
            target_id: match obj_lookup(fs, "target_id"@) {
                Option::None => None,
                Option::Some(WireModel::UInt(g)) => Some(g),
                Option::Some(_) => None,
            },
        },
        _ => CommandDataModel {
            id: 0,
            name: Seq::empty(),
            kind: CommandKind::ChatInput,
            options: None,
            guild_id: None,
            target_id: None,
        },
    }
}

/// Whether a field list carries an unsigned-integer `id`, an invocation
/// top's first check.
pub open spec fn id_field_ok(fs: Seq<(Seq<char>, WireModel)>) -> bool {
    obj_lookup(fs, "id"@) matches Some(v) && v is UInt
}

/// Whether a field list carries a recognized command-kind discriminant
/// under `type`.
pub open spec fn command_kind_field_ok(fs: Seq<(Seq<char>, WireModel)>) -> bool {
    obj_lookup(fs, "type"@) matches Some(t) && t matches WireModel::UInt(d)
        && CommandKind::spec_from_wire(d) is Some
}

impl CommandData {
    /// Decodes the top of a command invocation from a wire tree: structural
    /// type-matching only, with the first violated rule's error.
    pub fn decode(w: &WireValue) -> (r: Result<CommandData, CodecError>)
        ensures
            r is Ok <==> cmd_data_decodable(w@),
            r matches Ok(d) ==> d@ == spec_cmd_data(w@),
            match w@ {
                WireModel::Object(fs) => {
                    &&& (match obj_lookup(fs, "id"@) {
                        Option::None => r matches Err(CodecError::MissingRequiredField(f)) && f@
                            == "id"@,
                        Option::Some(v) => !(v is UInt) ==> (r matches Err(
                            CodecError::TypeMismatch(e, a),
                        ) && e@ == "integer"@ && a@ == crate::wire::spec_shape_name(v)@),
                    })
                    &&& id_field_ok(fs) ==> (match obj_lookup(fs, "name"@) {
                        Option::None => r matches Err(CodecError::MissingRequiredField(f)) && f@
                            == "name"@,
                        Option::Some(n) => !(n is Text) ==> (r matches Err(
                            CodecError::TypeMismatch(e, a),
                        ) && e@ == "string"@ && a@ == crate::wire::spec_shape_name(n)@),
                    })
                    &&& (id_field_ok(fs) && name_field_ok(fs)) ==> (match obj_lookup(
                        fs,
                        "type"@,
                    ) {
                        Option::None => r matches Err(CodecError::MissingRequiredField(f)) && f@
                            == "type"@,
                        Option::Some(WireModel::UInt(d)) => CommandKind::spec_from_wire(d)
                            is None ==> (r matches Err(CodecError::UnknownDiscriminant(v)) && v
                            == d),
                        Option::Some(t) => r matches Err(CodecError::TypeMismatch(e, a)) && e@
                            == "integer"@ && a@ == crate::wire::spec_shape_name(t)@,
                    })
                    &&& (id_field_ok(fs) && name_field_ok(fs) && command_kind_field_ok(fs)) ==> (
                    match obj_lookup(fs, "options"@) {
                        Option::None => true,
                        Option::Some(o) => (!(o is Null) && !(o is Array)) ==> (r matches Err(
                            CodecError::TypeMismatch(e, a),
                        ) && e@ == "array"@ && a@ == crate::wire::spec_shape_name(o)@),
                    })
                },
                _ => r matches Err(CodecError::TypeMismatch(e, a)) && e@ == "object"@ && a@
                    == crate::wire::spec_shape_name(w@)@,
            },
    {
        match w {
            WireValue::Object(_) => (),
            _ => {
                return Err(CodecError::TypeMismatch("object", shape_name(w)));
            },
        }
        let id: Snowflake = match w.get("id") {
            Some(v) => match v {
                WireValue::UInt(u) => *u,
                _ => {
                    return Err(CodecError::TypeMismatch("integer", shape_name(v)));
                },
            },
            None => {
                return Err(CodecError::MissingRequiredField("id"));
            },
        };
        let name: String = match w.get("name") {
            Some(v) => match v {
                WireValue::Text(s) => s.clone(),
                _ => {
                    return Err(CodecError::TypeMismatch("string", shape_name(v)));
                },
            },
            None => {
                return Err(CodecError::MissingRequiredField("name"));
            },
        };
        let kind: CommandKind = match w.get("type") {
            Some(v) => match v {
                WireValue::UInt(d) => {
                    if *d > 255 {
                        return Err(CodecError::UnknownDiscriminant(*d));
                    }
                    match CommandKind::from_wire(*d as u8) {
                        Some(k) => k,
                        None => {
                            return Err(CodecError::UnknownDiscriminant(*d));
                        },
                    }
                },
                _ => {
                    return Err(CodecError::TypeMismatch("integer", shape_name(v)));
                },
            },
            None => {
                return Err(CodecError::MissingRequiredField("type"));
            },
        };
        let options: Option<Vec<CommandInteractionData>> = match w.get("options") {
            None => None,
            Some(v) => match v {
                WireValue::Null => None,
                WireValue::Array(items) => match decode_tree_list(items) {
                    Ok(list) => Some(list),
                    Err(e) => {
                        return Err(e);
                    },
                },
                _ => {
                    return Err(CodecError::TypeMismatch("array", shape_name(v)));
                },
            },
        };
        let guild_id: Option<Snowflake> = match w.get("guild_id") {
            None => None,
            Some(v) => match v {
                WireValue::Null => None,
                WireValue::UInt(g) => Some(*g),
                _ => {
                    return Err(CodecError::TypeMismatch("integer", shape_name(v)));
                },
            },
        };
        let target_id: Option<Snowflake> = match w.get("target_id") {
            None => None,
            Some(v) => match v {
                WireValue::Null => None,
                WireValue::UInt(g) => Some(*g),
                _ => {
                    return Err(CodecError::TypeMismatch("integer", shape_name(v)));
                },
            },
        };
        Ok(CommandData { id, name, kind, options, guild_id, target_id })
    }

    /// Returns the identifier of the invoked command.
    pub fn id(&self) -> (r: &Snowflake)
        ensures
            *r == self@.id,
    {
        &self.id
    }

    /// Returns the name of the invoked command.
    pub fn name(&self) -> (r: &str)
        ensures
            r@ == self@.name,
    {
        &self.name
    }

    /// Returns the kind of the invoked command.
    pub fn kind(&self) -> (r: &CommandKind)
        ensures
            *r == self@.kind,
    {
        &self.kind
    }

    /// Returns the invocation's option nodes, when the payload carried a
    /// list.
    pub fn options(&self) -> (r: &Option<Vec<CommandInteractionData>>)
        ensures
            match r {
                Some(list) => self@.options matches Some(ms) && model_node_seq(list@) == ms,
                None => self@.options is None,
            },
    {
        &self.options
    }

    /// Returns the first option node with the given name, in document
    /// order, or nothing when there are no nodes or none carries the name.
    pub fn option<'a>(&'a self, name: &str) -> (r: Option<&'a CommandInteractionData>)
        ensures
            match self@.options {
                Some(children) => match first_child(children, name@) {
                    Some(c) => r matches Some(x) && x@ == c,
                    None => r is None,
                },
                None => r is None,
            },
    {
        match &self.options {
            Some(opts) => find_option(opts, name),
            None => None,
        }
    }

    /// Returns the guild the command was invoked in, when the payload named
    /// one.
    pub fn guild_id(&self) -> (r: &Option<Snowflake>)
        ensures
            *r == self@.guild_id,
    {
        &self.guild_id
    }

    /// Returns the entity the command targets, when the payload named one.
    pub fn target_id(&self) -> (r: &Option<Snowflake>)
        ensures
            *r == self@.target_id,
    {
        &self.target_id
    }
}

/// The mathematical model of a decoded interaction envelope.
pub enum InteractionModel {
    /// A ping event.
    Ping,
    /// A command invocation, with its decoded top.
    Command(CommandDataModel),
    /// A message-component event; recognized, payload not decoded.
    MessageComponent,
    /// A command-autocomplete event; recognized, payload not decoded.
    CommandAutocomplete,
    /// A modal submission; recognized, payload not decoded.
    ModalSumbit,
}

/// A decoded interaction envelope, by interaction kind.
///
/// The message-component, autocomplete, and modal kinds are recognized by
/// their discriminants but their payloads are not decoded.
#[derive(Debug)]
pub enum Interaction {
    /// A ping event for health checks.
    Ping,
    /// A command invocation, carrying its decoded data.
    Command(CommandData),
    /// A message-component event.
    MessageComponent,
    /// A command-autocomplete event.
    CommandAutocomplete,
    /// A modal submission.
    ModalSumbit,
}

impl View for Interaction {
    type V = InteractionModel;

    open spec fn view(&self) -> InteractionModel {
        match self {
            Interaction::Ping => InteractionModel::Ping,
            Interaction::Command(d) => InteractionModel::Command(d@),
            Interaction::MessageComponent => InteractionModel::MessageComponent,
            Interaction::CommandAutocomplete => InteractionModel::CommandAutocomplete,
            Interaction::ModalSumbit => InteractionModel::ModalSumbit,
        }
    }
}

impl Interaction {
    /// Decodes an interaction envelope: the numeric kind discriminant is
    /// read first and the payload decode dispatches on it.
    ///
    /// Every recognized discriminant either yields one envelope value or
    /// one error.  A missing payload for the command kind is distinguished
    /// from a malformed one, and an unrecognized discriminant carries the
    /// offending value.
    pub fn decode(w: &WireValue) -> (r: Result<Interaction, CodecError>)
        ensures
            match w@ {
                WireModel::Object(fs) => match obj_lookup(fs, "type"@) {
                    Some(WireModel::UInt(d)) => if d == 1 {
                        r matches Ok(i) && i@ is Ping
                    } else if d == 2 {
                        match obj_lookup(fs, "data"@) {
                            Option::None => r matches Err(CodecError::PayloadMissingForVariant(k))
                                && k == 2,
                            Option::Some(WireModel::Null) => r matches Err(
                                CodecError::PayloadMissingForVariant(k),
                            ) && k == 2,
                            Option::Some(payload) => if cmd_data_decodable(payload) {
                                r matches Ok(i) && i@ matches InteractionModel::Command(c) && c
                                    == spec_cmd_data(payload)
                            } else {
                                r matches Err(CodecError::PayloadMalformed(_))
                            },
                        }
                    } else if d == 3 {
                        r matches Ok(i) && i@ is MessageComponent
                    } else if d == 4 {
                        r matches Ok(i) && i@ is CommandAutocomplete
                    } else if d == 5 {
                        r matches Ok(i) && i@ is ModalSumbit
                    } else {
                        r matches Err(CodecError::UnknownDiscriminant(v)) && v == d
                    },
                    Some(_) => r matches Err(CodecError::TypeMismatch(e, _)) && e@ == "integer"@,
                    None => r matches Err(CodecError::MissingRequiredField(f)) && f@ == "type"@,
                },
                _ => r matches Err(CodecError::TypeMismatch(e, _)) && e@ == "object"@,
            },
    {
        match w {
            WireValue::Object(_) => (),
            _ => {
                return Err(CodecError::TypeMismatch("object", shape_name(w)));
            },
        }
        let d: u64 = match w.get("type") {
            Some(v) => match v {
                WireValue::UInt(d) => *d,
                _ => {
                    return Err(CodecError::TypeMismatch("integer", shape_name(v)));
                },
            },
            None => {
                return Err(CodecError::MissingRequiredField("type"));
            },
        };
        if d == 1 {
            Ok(Interaction::Ping)
        } else if d == 2 {
            match w.get("data") {
                None => Err(CodecError::PayloadMissingForVariant(2)),
                Some(v) => match v {
                    WireValue::Null => Err(CodecError::PayloadMissingForVariant(2)),
                    _ => match CommandData::decode(v) {
                        Ok(data) => Ok(Interaction::Command(data)),
                        Err(e) => Err(CodecError::PayloadMalformed(Box::new(e))),
                    },
                },
            }
        } else if d == 3 {
            Ok(Interaction::MessageComponent)
        } else if d == 4 {
            Ok(Interaction::CommandAutocomplete)
        } else if d == 5 {
            Ok(Interaction::ModalSumbit)
        } else {
            Err(CodecError::UnknownDiscriminant(d))
        }
    }
}

/// Data carried by an interaction, by interaction family.  Only command
/// interactions carry decoded data today.
#[derive(Debug)]
#[non_exhaustive]
pub enum InteractionData {
    /// The option-node tree of a command interaction.
    CommandInteraction(CommandInteractionData),
}

impl InteractionData {
    /// Decodes interaction data from a wire tree; the only shape decoded
    /// today is the option-node tree of a command interaction.
    pub fn decode(w: &WireValue) -> (r: Result<InteractionData, CodecError>)
        ensures
            r is Ok <==> tree_decodable(w@),
            r matches Ok(InteractionData::CommandInteraction(d)) ==> d@ == spec_tree(w@),
    {
        match CommandInteractionData::decode(w) {
            Ok(d) => Ok(InteractionData::CommandInteraction(d)),
            Err(e) => Err(e),
        }
    }
}

} // verus!
