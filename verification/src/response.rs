//! Responses to interactions: messages, autocompletion, and modals.
//!
//! An interaction response encodes as a discriminant integer plus an
//! optional payload; the pong and deferred-response kinds omit the payload
//! key entirely rather than emitting an empty object.

use vstd::prelude::*;

pub use crate::component::{
    ActionRow, ActionRowBuilder, ButtonComponent, ButtonComponentBuilder, ButtonStyle,
    MessageComponent, SelectMenu, SelectMenuBuilder, SelectMenuOption, SelectMenuOptionBuilder,
    TextInput, TextInputBuilder, TextInputStyle,
};

use crate::component::{
    model_component_seq, spec_components_wire, encode_component_list, MessageComponentModel,
};
use crate::errors::CodecError;
use crate::register::{
    choices_len_ok, encode_choice_list, model_choice_seq, opt_field, spec_choices_wire, Choice,
    ChoiceModel,
};
use crate::wire::{model_fields, WireField, WireModel, WireValue};

verus! {

broadcast use vstd::seq::group_seq_axioms;

/// The message was crossposted.
pub const CROSSPOSTED: u32 = 1u32 << 0;

/// The message is a crosspost.
pub const IS_CROSSPOST: u32 = 1u32 << 1;

/// Embeds of the message are suppressed.
pub const SUPPRESS_EMBEDS: u32 = 1u32 << 2;

/// The source message of this crosspost was deleted.
pub const SOURCE_MESSAGE_DELETED: u32 = 1u32 << 3;

/// The message is urgent.
pub const URGENT: u32 = 1u32 << 4;

/// The message has an associated thread.
pub const HAS_THREAD: u32 = 1u32 << 5;

/// The message is visible only to the invoking user.
pub const EPHEMERAL: u32 = 1u32 << 6;

/// The message is a loading placeholder.
pub const LOADING: u32 = 1u32 << 7;

/// Some roles could not be mentioned in the thread.
pub const FAILED_TO_MENTION_SOME_ROLES_IN_THREAD: u32 = 1u32 << 8;

/// Notifications for the message are suppressed.
pub const SUPPRESS_NOTIFICATIONS: u32 = 1u32 << 12;

/// The message is a voice message.
pub const IS_VOICE_MESSAGE: u32 = 1u32 << 13;

/// A bitmask of message flags, encoded on the wire as its raw 32-bit
/// integer.  The named bits are the module's `u32` constants.
#[derive(Debug, Clone, Copy, PartialEq, Eq, Structural)]
pub struct MessageFlags {
    bits: u32,
}

impl View for MessageFlags {
    type V = u32;

    closed spec fn view(&self) -> u32 {
        self.bits
    }
}

impl MessageFlags {
    /// Returns the empty bitmask.
    pub fn empty() -> (r: Self)
        ensures
            r@ == 0,
    {
        MessageFlags { bits: 0 }
    }

    /// Returns the bitmask holding exactly the given raw bits.
    pub fn from_bits(bits: u32) -> (r: Self)
        ensures
            r@ == bits,
    {
        MessageFlags { bits }
    }

    /// Returns the raw bits, as the wire encodes them.
    pub fn bits(&self) -> (r: u32)
        ensures
            r == self@,
    {
        self.bits
    }

    /// Returns the union of two bitmasks.
    pub fn union(self, other: Self) -> (r: Self)
        ensures
            r@ == self@ | other@,
    {
        MessageFlags { bits: self.bits | other.bits }
    }

    /// Returns whether every bit of `other` is set in this bitmask.
    pub fn contains(self, other: Self) -> (r: bool)
        ensures
            r == (self@ & other@ == other@),
    {
        self.bits & other.bits == other.bits
    }
}

/// The mathematical model of a message payload.
pub struct MessageModel {
    /// Whether the message is text-to-speech, once set.
    pub tts: Option<bool>,
    /// The message's content, once set.
    pub content: Option<Seq<char>>,
    /// The message's flag bits, once set.
    pub flags: Option<u32>,
    /// The message's components, once any was added.
    pub components: Option<Seq<MessageComponentModel>>,
}

/// A message payload: optional text-to-speech flag, content, flags, and
/// components.  Built through [`MessageBuilder`].
#[derive(Debug)]
pub struct Message {
    tts: Option<bool>,
    content: Option<String>,
    flags: Option<MessageFlags>,
    components: Option<Vec<MessageComponent>>,
}

impl Message {
    /// The mathematical model of this message.
    pub closed spec fn model(self) -> MessageModel {
        MessageModel {
            tts: self.tts,
            content: match self.content {
                Option::None => None,
                Option::Some(s) => Some(s@),
            },
            flags: match self.flags {
                Option::None => None,
                Option::Some(f) => Some(f@),
            },
            components: match self.components {
                Option::None => None,
                Option::Some(list) => Some(model_component_seq(list@)),
            },
        }
    }
}

impl View for Message {
    type V = MessageModel;

    closed spec fn view(&self) -> MessageModel {
        self.model()
    }
}

/// The wire form of a message payload: every absent optional field is
/// omitted entirely.
pub open spec fn spec_message_wire(m: MessageModel) -> WireModel {
    WireModel::Object(
        opt_field(
            "tts"@,
            match m.tts {
                Option::None => None,
                Option::Some(b) => Some(WireModel::Bool(b)),
            },
        ) + opt_field(
            "content"@,
            match m.content {
                Option::None => None,
                Option::Some(s) => Some(WireModel::Text(s)),
            },
        ) + opt_field(
            "flags"@,
            match m.flags {
                Option::None => None,
                Option::Some(bits) => Some(WireModel::UInt(bits as u64)),
            },
        ) + opt_field(
            "components"@,
            match m.components {
                Option::None => None,
                Option::Some(list) => Some(WireModel::Array(spec_components_wire(list))),
            },
        ),
    )
}

impl Message {
    /// Encodes this message as a wire object.
    pub fn encode(&self) -> (r: WireValue)
        ensures
            r@ == spec_message_wire(self@),
    {
        let mut fields: Vec<WireField> = Vec::new();
        match &self.tts {
            None => (),
            Some(b) => fields.push(WireField { key: "tts".to_owned(), value: WireValue::Bool(*b) }),
        }
        match &self.content {
            None => (),
            Some(s) => fields.push(
                WireField { key: "content".to_owned(), value: WireValue::Text(s.clone()) },
            ),
        }
        match &self.flags {
            None => (),
            Some(f) => fields.push(
                WireField { key: "flags".to_owned(), value: WireValue::UInt(f.bits() as u64) },
            ),
        }
        match &self.components {
            None => (),
            Some(list) => {
                let ws = encode_component_list(list);
                fields.push(
                    WireField { key: "components".to_owned(), value: WireValue::Array(ws) },
                );
            },
        }
        proof {
            crate::wire::lemma_model_fields(fields@);
            assert(model_fields(fields@) =~= spec_message_wire(self@)->Object_0);
        }
        WireValue::Object(fields)
    }
}

/// A builder for [`Message`]: accumulates the optional fields; building
/// never fails.
pub struct MessageBuilder {
    /// Whether the message is text-to-speech, once set.
    pub tts: Option<bool>,
    /// The message's content, once set.
    pub content: Option<String>,
    /// The message's flags, once set.
    pub flags: Option<MessageFlags>,
    /// The message's components, once any was added.
    pub components: Option<Vec<MessageComponent>>,
}

impl MessageBuilder {
    /// Starts a builder with no field set.
    pub fn new() -> (r: Self)
        ensures
            r.tts is None,
            r.content is None,
            r.flags is None,
            r.components is None,
    {
        MessageBuilder { tts: None, content: None, flags: None, components: None }
    }

    /// Marks the message text-to-speech.
    pub fn tts(self) -> (r: Self)
        ensures
            r == (MessageBuilder { tts: Some(true), ..self }),
    {
        MessageBuilder { tts: Some(true), ..self }
    }

    /// Sets the content of the message.
    pub fn content(self, content: String) -> (r: Self)
        ensures
            r == (MessageBuilder { content: Some(content), ..self }),
    {
        MessageBuilder { content: Some(content), ..self }
    }

    /// Sets the flags of the message.
    pub fn flags(self, flags: MessageFlags) -> (r: Self)
        ensures
            r == (MessageBuilder { flags: Some(flags), ..self }),
    {
        MessageBuilder { flags: Some(flags), ..self }
    }

    /// Adds one component, starting the list when none was added yet.
    pub fn component(self, component: MessageComponent) -> (r: Self)
        ensures
            r.components matches Some(list) && list@ == (match self.components {
                Option::None => Seq::empty().push(component),
                Option::Some(v) => v@.push(component),
            }),
            r.tts == self.tts,
            r.content == self.content,
            r.flags == self.flags,
    {
        let mut components = match self.components {
            Some(v) => v,
            None => Vec::new(),
        };
        components.push(component);
        MessageBuilder { components: Some(components), ..self }
    }

    /// Sets the whole component list.
    pub fn components(self, components: Vec<MessageComponent>) -> (r: Self)
        ensures
            r == (MessageBuilder { components: Some(components), ..self }),
    {
        MessageBuilder { components: Some(components), ..self }
    }

    /// Builds the message; no rule constrains its fields.
    pub fn build(self) -> (r: Message)
        ensures
            r@.tts == self.tts,
            r@.content == (match self.content {
                Option::None => None::<Seq<char>>,
                Option::Some(s) => Some(s@),
            }),
            r@.flags == (match self.flags {
                Option::None => None::<u32>,
                Option::Some(f) => Some(f@),
            }),
            r@.components == (match self.components {
                Option::None => None::<Seq<MessageComponentModel>>,
                Option::Some(list) => Some(model_component_seq(list@)),
            }),
    {
        Message {
            tts: self.tts,
            content: self.content,
            flags: self.flags,
            components: self.components,
        }
    }
}

/// The mathematical model of an autocomplete payload.
pub struct AutocompleteModel {
    /// The suggested choices, in order.
    pub choices: Seq<ChoiceModel>,
}

/// An autocomplete payload: the choices suggested to the user.
#[derive(Debug)]
pub struct Autocomplete {
    choices: Vec<Choice>,
}

impl Autocomplete {
    /// The mathematical model of this payload.
    pub closed spec fn model(self) -> AutocompleteModel {
        AutocompleteModel { choices: model_choice_seq(self.choices@) }
    }
}

impl View for Autocomplete {
    type V = AutocompleteModel;

    closed spec fn view(&self) -> AutocompleteModel {
        self.model()
    }
}

/// The wire form of an autocomplete payload: its choices.
pub open spec fn spec_autocomplete_wire(a: AutocompleteModel) -> WireModel {
    WireModel::Object(seq![("choices"@, WireModel::Array(spec_choices_wire(a.choices)))])
}

impl Autocomplete {
    /// Starts an autocomplete payload with no choice.
    pub fn new() -> (r: Self)
        ensures
            r@.choices.len() == 0,
    {
        Autocomplete { choices: Vec::new() }
    }

    /// Adds one suggested choice.
    pub fn choice(self, choice: Choice) -> (r: Self)
        ensures
            r@.choices == self@.choices.push(choice@),
    {
        let ghost pre = self.choices@;
        let mut choices = self.choices;
        choices.push(choice);
        proof {
            lemma_model_choice_seq_push(pre, choice);
        }
        Autocomplete { choices }
    }

    /// Sets the whole choice list.
    pub fn choices(self, choices: Vec<Choice>) -> (r: Self)
        ensures
            r@.choices == model_choice_seq(choices@),
    {
        Autocomplete { choices }
    }

    /// Encodes this payload as a wire object; a choice whose string value
    /// exceeds 100 bytes fails.
    pub fn encode(&self) -> (r: Result<WireValue, CodecError>)
        ensures
            r is Ok <==> choices_len_ok(self@.choices),
            r matches Ok(w) ==> w@ == spec_autocomplete_wire(self@),
            !choices_len_ok(self@.choices) ==> (r matches Err(CodecError::ValueTooLong(f, max))
                && f@ == "value"@ && max == 100),
    {
        let ws = match encode_choice_list(&self.choices) {
            Ok(ws) => ws,
            Err(e) => {
                return Err(e);
            },
        };
        let mut fields: Vec<WireField> = Vec::new();
        fields.push(WireField { key: "choices".to_owned(), value: WireValue::Array(ws) });
        proof {
            crate::wire::lemma_model_fields(fields@);
            assert(model_fields(fields@) =~= spec_autocomplete_wire(self@)->Object_0);
        }
        Ok(WireValue::Object(fields))
    }
}

/// Appending a choice appends its model.
proof fn lemma_model_choice_seq_push(items: Seq<Choice>, c: Choice)
    ensures
        model_choice_seq(items.push(c)) == model_choice_seq(items).push(c@),
    decreases items.len(),
{
    if items.len() == 0 {
        assert(items.push(c).drop_first() =~= items);
    } else {
        assert(items.push(c).drop_first() =~= items.drop_first().push(c));
        lemma_model_choice_seq_push(items.drop_first(), c);
        assert(model_choice_seq(items.push(c)) =~= model_choice_seq(items).push(c@));
    }
}

/// The mathematical model of a modal payload.
pub struct ModalModel {
    /// The modal's custom identifier.
    pub custom_id: Seq<char>,
    /// The modal's title.
    pub title: Seq<char>,
    /// The modal's components, in order.
    pub components: Seq<MessageComponentModel>,
}

/// A modal payload: a custom identifier, a title, and the components the
/// form presents.
#[derive(Debug)]
pub struct Modal {
    custom_id: String,
    title: String,
    components: Vec<MessageComponent>,
}

impl Modal {
    /// The mathematical model of this payload.
    pub closed spec fn model(self) -> ModalModel {
        ModalModel {
            custom_id: self.custom_id@,
            title: self.title@,
            components: model_component_seq(self.components@),
        }
    }
}

impl View for Modal {
    type V = ModalModel;

    closed spec fn view(&self) -> ModalModel {
        self.model()
    }
}

/// The wire form of a modal payload: its identifier, title, and components.
pub open spec fn spec_modal_wire(m: ModalModel) -> WireModel {
    WireModel::Object(
        seq![
            ("custom_id"@, WireModel::Text(m.custom_id)),
            ("title"@, WireModel::Text(m.title)),
            ("components"@, WireModel::Array(spec_components_wire(m.components))),
        ],
    )
}

impl Modal {
    /// Starts a modal payload with the given identifier and title and no
    /// component.
    pub fn new(custom_id: String, title: String) -> (r: Self)
        ensures
            r@.custom_id == custom_id@,
            r@.title == title@,
            r@.components.len() == 0,
    {
        Modal { custom_id, title, components: Vec::new() }
    }

    /// Adds one component to the form.
    pub fn component(self, component: MessageComponent) -> (r: Self)
        ensures
            r@.custom_id == self@.custom_id,
            r@.title == self@.title,
            r@.components == self@.components.push(component@),
    {
        let ghost pre = self.components@;
        let mut components = self.components;
        components.push(component);
        proof {
            lemma_model_component_seq_push(pre, component);
        }
        Modal { custom_id: self.custom_id, title: self.title, components }
    }

    /// Sets the whole component list.
    pub fn components(self, components: Vec<MessageComponent>) -> (r: Self)
        ensures
            r@.custom_id == self@.custom_id,
            r@.title == self@.title,
            r@.components == model_component_seq(components@),
    {
        Modal { custom_id: self.custom_id, title: self.title, components }
    }

    /// Encodes this payload as a wire object.
    pub fn encode(&self) -> (r: WireValue)
        ensures
            r@ == spec_modal_wire(self@),
    {
        let ws = encode_component_list(&self.components);
        let mut fields: Vec<WireField> = Vec::new();
        fields.push(
            WireField {
                key: "custom_id".to_owned(),
                value: WireValue::Text(self.custom_id.clone()),
            },
        );
        fields.push(
            WireField { key: "title".to_owned(), value: WireValue::Text(self.title.clone()) },
        );
        fields.push(WireField { key: "components".to_owned(), value: WireValue::Array(ws) });
        proof {
            crate::wire::lemma_model_fields(fields@);
            assert(model_fields(fields@) =~= spec_modal_wire(self@)->Object_0);
        }
        WireValue::Object(fields)
    }
}

/// Appending a component appends its model.
proof fn lemma_model_component_seq_push(items: Seq<MessageComponent>, c: MessageComponent)
    ensures
        model_component_seq(items.push(c)) == model_component_seq(items).push(c@),
    decreases items.len(),
{
    if items.len() == 0 {
        assert(items.push(c).drop_first() =~= items);
    } else {
        assert(items.push(c).drop_first() =~= items.drop_first().push(c));
        lemma_model_component_seq_push(items.drop_first(), c);
        assert(model_component_seq(items.push(c)) =~= model_component_seq(items).push(c@));
    }
}

/// The mathematical model of an interaction response.
pub enum InteractionResponseModel {
    /// A pong acknowledgment.
    Pong,
    /// A message response.
    Message(MessageModel),
    /// A deferred response without content.
    DeferResponse,
    /// A deferred message update.
    DeferredUpdateMessage(MessageModel),
    /// An update of an existing message.
    UpdateMessage(MessageModel),
    /// Autocomplete suggestions.
    Autocomplete(AutocompleteModel),
    /// A modal form.
    Modal(ModalModel),
}

/// A response to an interaction, from a plain acknowledgment to a message,
/// autocomplete suggestions, or a modal form.
#[derive(Debug)]
pub enum InteractionResponse {
    /// A pong acknowledgment.
    Pong,
    /// A message response.
    Message(Message),
    /// A deferred response without content.
    DeferResponse,
    /// A deferred message update.
    DeferredUpdateMessage(Message),
    /// An update of an existing message.
    UpdateMessage(Message),
    /// Autocomplete suggestions.
    Autocomplete(Autocomplete),
    /// A modal form.
    Modal(Modal),
}

impl View for InteractionResponse {
    type V = InteractionResponseModel;

    open spec fn view(&self) -> InteractionResponseModel {
        match self {
            InteractionResponse::Pong => InteractionResponseModel::Pong,
            InteractionResponse::Message(m) => InteractionResponseModel::Message(m@),
            InteractionResponse::DeferResponse => InteractionResponseModel::DeferResponse,
            InteractionResponse::DeferredUpdateMessage(m) => {
                InteractionResponseModel::DeferredUpdateMessage(m@)
            },
            InteractionResponse::UpdateMessage(m) => InteractionResponseModel::UpdateMessage(m@),
            InteractionResponse::Autocomplete(a) => InteractionResponseModel::Autocomplete(a@),
            InteractionResponse::Modal(m) => InteractionResponseModel::Modal(m@),
        }
    }
}

/// Whether a response can be encoded: only autocomplete choices carry a
/// rule that can fail.
pub open spec fn response_encodable(m: InteractionResponseModel) -> bool {
    match m {
        InteractionResponseModel::Autocomplete(a) => choices_len_ok(a.choices),
        _ => true,
    }
}

/// The wire form of a response: its discriminant under `type`, and its
/// payload under `data`; the pong and deferred-response kinds omit `data`
/// entirely.
pub open spec fn spec_response_wire(m: InteractionResponseModel) -> WireModel {
    match m {
        InteractionResponseModel::Pong => WireModel::Object(
            seq![("type"@, WireModel::UInt(1))],
        ),
        InteractionResponseModel::Message(msg) => WireModel::Object(
            seq![("type"@, WireModel::UInt(4)), ("data"@, spec_message_wire(msg))],
        ),
        InteractionResponseModel::DeferResponse => WireModel::Object(
            seq![("type"@, WireModel::UInt(5))],
        ),
        InteractionResponseModel::DeferredUpdateMessage(msg) => WireModel::Object(
            seq![("type"@, WireModel::UInt(6)), ("data"@, spec_message_wire(msg))],
        ),
        InteractionResponseModel::UpdateMessage(msg) => WireModel::Object(
            seq![("type"@, WireModel::UInt(7)), ("data"@, spec_message_wire(msg))],
        ),
        InteractionResponseModel::Autocomplete(a) => WireModel::Object(
            seq![("type"@, WireModel::UInt(8)), ("data"@, spec_autocomplete_wire(a))],
        ),
        InteractionResponseModel::Modal(m) => WireModel::Object(
            seq![("type"@, WireModel::UInt(9)), ("data"@, spec_modal_wire(m))],
        ),
    }
}

impl InteractionResponse {
    /// Encodes this response as a wire object: the discriminant under
    /// `type`, the payload under `data` only for the kinds that carry one.
    pub fn encode(&self) -> (r: Result<WireValue, CodecError>)
        ensures
            r is Ok <==> response_encodable(self@),
            r matches Ok(w) ==> w@ == spec_response_wire(self@),
    {
        let (discriminant, data): (u64, Option<WireValue>) = match self {
            InteractionResponse::Pong => (1, None),
            InteractionResponse::Message(msg) => (4, Some(msg.encode())),
            InteractionResponse::DeferResponse => (5, None),
            InteractionResponse::DeferredUpdateMessage(msg) => (6, Some(msg.encode())),
            InteractionResponse::UpdateMessage(msg) => (7, Some(msg.encode())),
            InteractionResponse::Autocomplete(a) => {
                match a.encode() {
                    Ok(w) => (8, Some(w)),
                    Err(e) => {
                        return Err(e);
                    },
                }
            },
            InteractionResponse::Modal(m) => (9, Some(m.encode())),
        };
        let mut fields: Vec<WireField> = Vec::new();
        fields.push(
            WireField { key: "type".to_owned(), value: WireValue::UInt(discriminant) },
        );
        match data {
            None => (),
            Some(w) => fields.push(WireField { key: "data".to_owned(), value: w }),
        }
        proof {
            crate::wire::lemma_model_fields(fields@);
            assert(model_fields(fields@) =~= spec_response_wire(self@)->Object_0);
        }
        Ok(WireValue::Object(fields))
    }
}

} // verus!
