//! Message components: containers, buttons, select menus, and text inputs.
//!
//! Each component encodes as a wire object whose discriminant integer and
//! field set are specific to its variant; the four select-menu flavors share
//! one shape and differ only in their discriminant.  Absent optional fields
//! are omitted from the payload entirely.

use vstd::prelude::*;

use crate::errors::CodecError;
use crate::register::{check_range, opt_field, string_byte_len, utf8_len};
use crate::wire::{model_fields, model_seq, WireField, WireModel, WireValue};

verus! {

broadcast use vstd::seq::group_seq_axioms;

/// The style of a button, selected on the wire by a small integer
/// discriminant.
#[derive(Debug, Clone, Copy, PartialEq, Eq, Structural)]
pub enum ButtonStyle {
    /// The primary call to action.
    Primary,
    /// A secondary action.
    Secondary,
    /// A confirming action.
    Success,
    /// A destructive action.
    Danger,
    /// A link to a URL.
    Link,
    /// A premium purchase.
    Premium,
}

impl ButtonStyle {
    /// The wire discriminant of this style.
    pub open spec fn spec_wire(self) -> u8 {
        match self {
            ButtonStyle::Primary => 1,
            ButtonStyle::Secondary => 2,
            ButtonStyle::Success => 3,
            ButtonStyle::Danger => 4,
            ButtonStyle::Link => 5,
            ButtonStyle::Premium => 6,
        }
    }

    /// Returns the wire discriminant of this style.
    pub fn wire(&self) -> (r: u8)
        ensures
            r == self.spec_wire(),
    {
        match self {
            ButtonStyle::Primary => 1,
            ButtonStyle::Secondary => 2,
            ButtonStyle::Success => 3,
            ButtonStyle::Danger => 4,
            ButtonStyle::Link => 5,
            ButtonStyle::Premium => 6,
        }
    }
}

/// The style of a text input, selected on the wire by a small integer
/// discriminant.
#[derive(Debug, Clone, Copy, PartialEq, Eq, Structural)]
pub enum TextInputStyle {
    /// A single-line input.
    Short,
    /// A multi-line input.
    Paragraph,
}

impl TextInputStyle {
    /// The wire discriminant of this style.
    pub open spec fn spec_wire(self) -> u8 {
        match self {
            TextInputStyle::Short => 1,
            TextInputStyle::Paragraph => 2,
        }
    }

    /// Returns the wire discriminant of this style.
    pub fn wire(&self) -> (r: u8)
        ensures
            r == self.spec_wire(),
    {
        match self {
            TextInputStyle::Short => 1,
            TextInputStyle::Paragraph => 2,
        }
    }
}

/// The mathematical model of a select-menu option.
pub struct SelectMenuOptionModel {
    /// The option's label.
    pub label: Seq<char>,
    /// The option's value.
    pub value: Seq<char>,
    /// The option's description, once set.
    pub description: Option<Seq<char>>,
    /// The option's default marker, once set.
    pub default: Option<Seq<char>>,
}

/// One option of a select menu: a label, a value, and optional description
/// and default marker.  Built only through [`SelectMenuOptionBuilder`].
#[derive(Debug)]
pub struct SelectMenuOption {
    label: String,
    value: String,
    description: Option<String>,
    default: Option<String>,
}

impl SelectMenuOption {
    /// The mathematical model of this option.
    pub closed spec fn model(self) -> SelectMenuOptionModel {
        SelectMenuOptionModel {
            label: self.label@,
            value: self.value@,
            description: match self.description {
                Option::None => None,
                Option::Some(s) => Some(s@),
            },
            default: match self.default {
                Option::None => None,
                Option::Some(s) => Some(s@),
            },
        }
    }
}

impl View for SelectMenuOption {
    type V = SelectMenuOptionModel;

    closed spec fn view(&self) -> SelectMenuOptionModel {
        self.model()
    }
}

/// The wire form of a select-menu option: `label` and `value` always, the
/// description and default marker only when set.
pub open spec fn spec_select_option_wire(m: SelectMenuOptionModel) -> WireModel {
    WireModel::Object(
        seq![("label"@, WireModel::Text(m.label)), ("value"@, WireModel::Text(m.value))]
            + opt_field(
            "description"@,
            match m.description {
                Option::None => None,
                Option::Some(s) => Some(WireModel::Text(s)),
            },
        ) + opt_field(
            "default"@,
            match m.default {
                Option::None => None,
                Option::Some(s) => Some(WireModel::Text(s)),
            },
        ),
    )
}

impl SelectMenuOption {
    /// Encodes this option as a wire object.
    pub fn encode(&self) -> (r: WireValue)
        ensures
            r@ == spec_select_option_wire(self@),
    {
        let mut fields: Vec<WireField> = Vec::new();
        fields.push(
            WireField { key: "label".to_owned(), value: WireValue::Text(self.label.clone()) },
        );
        fields.push(
            WireField { key: "value".to_owned(), value: WireValue::Text(self.value.clone()) },
        );
        match &self.description {
            None => (),
            Some(s) => fields.push(
                WireField { key: "description".to_owned(), value: WireValue::Text(s.clone()) },
            ),
        }
        match &self.default {
            None => (),
            Some(s) => fields.push(
                WireField { key: "default".to_owned(), value: WireValue::Text(s.clone()) },
            ),
        }
        proof {
            crate::wire::lemma_model_fields(fields@);
            assert(model_fields(fields@) =~= spec_select_option_wire(self@)->Object_0);
        }
        WireValue::Object(fields)
    }
}

/// A builder for [`SelectMenuOption`]: accumulates the optional fields and
/// validates them at [`SelectMenuOptionBuilder::build`].
pub struct SelectMenuOptionBuilder {
    /// The option's label, once set.
    pub label: Option<String>,
    /// The option's value, once set.
    pub value: Option<String>,
    /// The option's description, once set.
    pub description: Option<String>,
    /// The option's default marker, once set.
    pub default: Option<String>,
}

impl SelectMenuOptionBuilder {
    /// Starts a builder with no field set.
    pub fn new() -> (r: Self)
        ensures
            r.label is None,
            r.value is None,
            r.description is None,
            r.default is None,
    {
        SelectMenuOptionBuilder { label: None, value: None, description: None, default: None }
    }

    /// Sets the label of the option.
    pub fn label(self, label: String) -> (r: Self)
        ensures
            r == (SelectMenuOptionBuilder { label: Some(label), ..self }),
    {
        SelectMenuOptionBuilder { label: Some(label), ..self }
    }

    /// Sets the value of the option.
    pub fn value(self, value: String) -> (r: Self)
        ensures
            r == (SelectMenuOptionBuilder { value: Some(value), ..self }),
    {
        SelectMenuOptionBuilder { value: Some(value), ..self }
    }

    /// Sets the description of the option.
    pub fn description(self, description: String) -> (r: Self)
        ensures
            r == (SelectMenuOptionBuilder { description: Some(description), ..self }),
    {
        SelectMenuOptionBuilder { description: Some(description), ..self }
    }

    /// Sets the default marker of the option.
    pub fn default(self, default: String) -> (r: Self)
        ensures
            r == (SelectMenuOptionBuilder { default: Some(default), ..self }),
    {
        SelectMenuOptionBuilder { default: Some(default), ..self }
    }

    /// Builds the option.  Checks run in order and fail fast: the label and
    /// the value must be set.
    pub fn build(self) -> (r: Result<SelectMenuOption, CodecError>)
        ensures
            r is Ok <==> self.label is Some && self.value is Some,
            r matches Ok(o) ==> ({
                &&& o@.label == self.label->Some_0@
                &&& o@.value == self.value->Some_0@
                &&& o@.description == (match self.description {
                    Option::None => None::<Seq<char>>,
                    Option::Some(s) => Some(s@),
                })
                &&& o@.default == (match self.default {
                    Option::None => None::<Seq<char>>,
                    Option::Some(s) => Some(s@),
                })
            }),
            self.label is None ==> (r matches Err(CodecError::MissingRequiredField(f)) && f@
                == "label"@),
            (self.label is Some && self.value is None) ==> (r matches Err(
                CodecError::MissingRequiredField(f),
            ) && f@ == "value"@),
    {
        let label = match self.label {
            Some(l) => l,
            None => {
                return Err(CodecError::MissingRequiredField("label"));
            },
        };
        let value = match self.value {
            Some(v) => v,
            None => {
                return Err(CodecError::MissingRequiredField("value"));
            },
        };
        Ok(
            SelectMenuOption {
                label,
                value,
                description: self.description,
                default: self.default,
            },
        )
    }
}

/// The mathematical model of a select menu.
pub struct SelectMenuModel {
    /// The menu's custom identifier.
    pub custom_id: Seq<char>,
    /// The menu's options, once any was added.
    pub options: Option<Seq<SelectMenuOptionModel>>,
    /// The menu's placeholder, once set.
    pub placeholder: Option<Seq<char>>,
    /// Whether the menu is disabled, once set.
    pub disabled: Option<bool>,
}

/// A select menu: one shape shared by the string, user, role, mentionable,
/// and channel flavors, which differ only in their wire discriminant.
/// Built only through [`SelectMenuBuilder`].
#[derive(Debug)]
pub struct SelectMenu {
    custom_id: String,
    options: Option<Vec<SelectMenuOption>>,
    placeholder: Option<String>,
    disabled: Option<bool>,
}

/// The models of a sequence of select-menu options, element by element.
pub open spec fn model_select_option_seq(items: Seq<SelectMenuOption>) -> Seq<
    SelectMenuOptionModel,
>
    decreases items.len(),
{
    if items.len() == 0 {
        Seq::empty()
    } else {
        seq![items[0]@] + model_select_option_seq(items.drop_first())
    }
}

proof fn lemma_model_select_option_seq(items: Seq<SelectMenuOption>)
    ensures
        model_select_option_seq(items).len() == items.len(),
        forall|i: int| 0 <= i < items.len() ==> model_select_option_seq(items)[i] == items[i]@,
    decreases items.len(),
{
    if items.len() > 0 {
        lemma_model_select_option_seq(items.drop_first());
    }
}

impl SelectMenu {
    /// The mathematical model of this menu.
    pub closed spec fn model(self) -> SelectMenuModel {
        SelectMenuModel {
            custom_id: self.custom_id@,
            options: match self.options {
                Option::None => None,
                Option::Some(list) => Some(model_select_option_seq(list@)),
            },
            placeholder: match self.placeholder {
                Option::None => None,
                Option::Some(s) => Some(s@),
            },
            disabled: self.disabled,
        }
    }
}

impl View for SelectMenu {
    type V = SelectMenuModel;

    closed spec fn view(&self) -> SelectMenuModel {
        self.model()
    }
}

impl SelectMenu {
    /// Returns the custom identifier of this menu.
    pub fn custom_id(&self) -> (r: &str)
        ensures
            r@ == self@.custom_id,
    {
        &self.custom_id
    }

    /// Returns the options of this menu, when any was added.
    pub fn options(&self) -> (r: &Option<Vec<SelectMenuOption>>)
        ensures
            match r {
                Some(list) => self@.options matches Some(ms) && model_select_option_seq(list@)
                    == ms,
                None => self@.options is None,
            },
    {
        &self.options
    }

    /// Returns the placeholder of this menu, when set.
    pub fn placeholder(&self) -> (r: &Option<String>)
        ensures
            match r {
                Some(s) => self@.placeholder matches Some(ms) && s@ == ms,
                None => self@.placeholder is None,
            },
    {
        &self.placeholder
    }

    /// Returns whether this menu is disabled, when set.
    pub fn disabled(&self) -> (r: &Option<bool>)
        ensures
            *r == self@.disabled,
    {
        &self.disabled
    }
}

/// The wire forms of a sequence of select-menu options.
pub open spec fn spec_select_options_wire(ms: Seq<SelectMenuOptionModel>) -> Seq<WireModel>
    decreases ms.len(),
{
    if ms.len() == 0 {
        Seq::empty()
    } else {
        seq![spec_select_option_wire(ms[0])] + spec_select_options_wire(ms.drop_first())
    }
}

proof fn lemma_spec_select_options_wire(ms: Seq<SelectMenuOptionModel>)
    ensures
        spec_select_options_wire(ms).len() == ms.len(),
        forall|i: int|
            0 <= i < ms.len() ==> spec_select_options_wire(ms)[i] == spec_select_option_wire(
                ms[i],
            ),
    decreases ms.len(),
{
    if ms.len() > 0 {
        lemma_spec_select_options_wire(ms.drop_first());
    }
}

/// The wire form of a select menu under a given discriminant: `type` and
/// `custom_id` always, the options, placeholder, and disabled flag only
/// when set.
pub open spec fn spec_select_menu_wire(discriminant: u64, m: SelectMenuModel) -> WireModel {
    WireModel::Object(
        seq![
            ("type"@, WireModel::UInt(discriminant)),
            ("custom_id"@, WireModel::Text(m.custom_id)),
        ] + opt_field(
            "options"@,
            match m.options {
                Option::None => None,
                Option::Some(list) => Some(WireModel::Array(spec_select_options_wire(list))),
            },
        ) + opt_field(
            "placeholder"@,
            match m.placeholder {
                Option::None => None,
                Option::Some(s) => Some(WireModel::Text(s)),
            },
        ) + opt_field(
            "disabled"@,
            match m.disabled {
                Option::None => None,
                Option::Some(b) => Some(WireModel::Bool(b)),
            },
        ),
    )
}

impl SelectMenu {
    /// Encodes this menu as a wire object under the given discriminant.
    pub fn encode(&self, discriminant: u64) -> (r: WireValue)
        ensures
            r@ == spec_select_menu_wire(discriminant, self@),
    {
        let mut fields: Vec<WireField> = Vec::new();
        fields.push(WireField { key: "type".to_owned(), value: WireValue::UInt(discriminant) });
        fields.push(
            WireField {
                key: "custom_id".to_owned(),
                value: WireValue::Text(self.custom_id.clone()),
            },
        );
        match &self.options {
            None => (),
            Some(list) => {
                let ghost oms = model_select_option_seq(list@);
                proof {
                    lemma_model_select_option_seq(list@);
                    lemma_spec_select_options_wire(oms);
                }
                let mut out: Vec<WireValue> = Vec::new();
                let n = list.len();
                let mut i: usize = 0;
                while i < n
                    invariant
                        n == list@.len(),
                        i <= n,
                        out@.len() == i as int,
                        oms == model_select_option_seq(list@),
                        oms.len() == list@.len(),
                        forall|j: int| 0 <= j < list@.len() ==> oms[j] == list@[j]@,
                        forall|j: int|
                            0 <= j < i ==> #[trigger] out@[j].model() == spec_select_option_wire(
                                oms[j],
                            ),
                    decreases n - i,
                {
                    let w = list[i].encode();
                    proof {
                        assert(w.model() == spec_select_option_wire(oms[i as int]));
                    }
                    out.push(w);
                    i += 1;
                }
                proof {
                    lemma_spec_select_options_wire(oms);
                    crate::wire::lemma_model_seq(out@);
                    assert forall|j: int| 0 <= j < out@.len() implies model_seq(out@)[j]
                        == spec_select_options_wire(oms)[j] by {
                        assert(model_seq(out@)[j] == out@[j].model());
                        assert(spec_select_options_wire(oms)[j] == spec_select_option_wire(oms[j]));
                    }
                    assert(model_seq(out@) =~= spec_select_options_wire(oms));
                }
                fields.push(
                    WireField { key: "options".to_owned(), value: WireValue::Array(out) },
                );
            },
        }
        match &self.placeholder {
            None => (),
            Some(s) => fields.push(
                WireField { key: "placeholder".to_owned(), value: WireValue::Text(s.clone()) },
            ),
        }
        match &self.disabled {
            None => (),
            Some(b) => fields.push(
                WireField { key: "disabled".to_owned(), value: WireValue::Bool(*b) },
            ),
        }
        proof {
            crate::wire::lemma_model_fields(fields@);
            assert(model_fields(fields@) =~= spec_select_menu_wire(discriminant, self@)->Object_0);
        }
        WireValue::Object(fields)
    }
}

/// A builder for [`SelectMenu`]: accumulates the optional fields and
/// validates them at [`SelectMenuBuilder::build`].
pub struct SelectMenuBuilder {
    /// The menu's custom identifier, once set.
    pub custom_id: Option<String>,
    /// The menu's options, once any was added.
    pub options: Option<Vec<SelectMenuOption>>,
    /// The menu's placeholder, once set.
    pub placeholder: Option<String>,
    /// Whether the menu is disabled, once set.
    pub disabled: Option<bool>,
}

impl SelectMenuBuilder {
    /// Starts a builder with no field set.
    pub fn new() -> (r: Self)
        ensures
            r.custom_id is None,
            r.options is None,
            r.placeholder is None,
            r.disabled is None,
    {
        SelectMenuBuilder { custom_id: None, options: None, placeholder: None, disabled: None }
    }

    /// Sets the custom identifier of the menu.
    pub fn custom_id(self, custom_id: String) -> (r: Self)
        ensures
            r == (SelectMenuBuilder { custom_id: Some(custom_id), ..self }),
    {
        SelectMenuBuilder { custom_id: Some(custom_id), ..self }
    }

    /// Adds one option, starting the list when none was added yet.
    pub fn option(self, option: SelectMenuOption) -> (r: Self)
        ensures
            r.options matches Some(list) && list@ == (match self.options {
                Option::None => Seq::empty().push(option),
                Option::Some(v) => v@.push(option),
            }),
            r.custom_id == self.custom_id,
            r.placeholder == self.placeholder,
            r.disabled == self.disabled,
    {
        let mut options = match self.options {
            Some(v) => v,
            None => Vec::new(),
        };
        options.push(option);
        SelectMenuBuilder { options: Some(options), ..self }
    }

    /// Sets the whole option list.
    pub fn options(self, options: Vec<SelectMenuOption>) -> (r: Self)
        ensures
            r == (SelectMenuBuilder { options: Some(options), ..self }),
    {
        SelectMenuBuilder { options: Some(options), ..self }
    }

    /// Sets the placeholder of the menu.
    pub fn placeholder(self, placeholder: String) -> (r: Self)
        ensures
            r == (SelectMenuBuilder { placeholder: Some(placeholder), ..self }),
    {
        SelectMenuBuilder { placeholder: Some(placeholder), ..self }
    }

    /// Marks the menu disabled.
    pub fn disabled(self) -> (r: Self)
        ensures
            r == (SelectMenuBuilder { disabled: Some(true), ..self }),
    {
        SelectMenuBuilder { disabled: Some(true), ..self }
    }

    /// Builds the menu.  The custom identifier must be set.
    pub fn build(self) -> (r: Result<SelectMenu, CodecError>)
        ensures
            r is Ok <==> self.custom_id is Some,
            r matches Ok(m) ==> ({
                &&& m@.custom_id == self.custom_id->Some_0@
                &&& m@.options == (match self.options {
                    Option::None => None::<Seq<SelectMenuOptionModel>>,
                    Option::Some(list) => Some(model_select_option_seq(list@)),
                })
                &&& m@.placeholder == (match self.placeholder {
                    Option::None => None::<Seq<char>>,
                    Option::Some(s) => Some(s@),
                })
                &&& m@.disabled == self.disabled
            }),
            self.custom_id is None ==> (r matches Err(CodecError::MissingRequiredField(f)) && f@
                == "custom_id"@),
    {
        let custom_id = match self.custom_id {
            Some(c) => c,
            None => {
                return Err(CodecError::MissingRequiredField("custom_id"));
            },
        };
        Ok(
            SelectMenu {
                custom_id,
                options: self.options,
                placeholder: self.placeholder,
                disabled: self.disabled,
            },
        )
    }
}

/// The mathematical model of a button.
pub struct ButtonComponentModel {
    /// The button's style.
    pub style: ButtonStyle,
    /// The button's label, once set.
    pub label: Option<Seq<char>>,
    /// The button's custom identifier, once set.
    pub custom_id: Option<Seq<char>>,
    /// The button's URL, once set.
    pub url: Option<Seq<char>>,
    /// Whether the button is disabled, once set.
    pub disabled: Option<bool>,
}

/// A button: a style and optional label, custom identifier, URL, and
/// disabled flag.  Built only through [`ButtonComponentBuilder`].
#[derive(Debug)]
pub struct ButtonComponent {
    style: ButtonStyle,
    label: Option<String>,
    custom_id: Option<String>,
    url: Option<String>,
    disabled: Option<bool>,
}

impl ButtonComponent {
    /// The mathematical model of this button.
    pub closed spec fn model(self) -> ButtonComponentModel {
        ButtonComponentModel {
            style: self.style,
            label: match self.label {
                Option::None => None,
                Option::Some(s) => Some(s@),
            },
            custom_id: match self.custom_id {
                Option::None => None,
                Option::Some(s) => Some(s@),
            },
            url: match self.url {
                Option::None => None,
                Option::Some(s) => Some(s@),
            },
            disabled: self.disabled,
        }
    }
}

impl View for ButtonComponent {
    type V = ButtonComponentModel;

    closed spec fn view(&self) -> ButtonComponentModel {
        self.model()
    }
}

/// The wire form of a button: `type` and `style` always, the label, custom
/// identifier, URL, and disabled flag only when set.
pub open spec fn spec_button_wire(m: ButtonComponentModel) -> WireModel {
    WireModel::Object(
        seq![
            ("type"@, WireModel::UInt(2)),
            ("style"@, WireModel::UInt(m.style.spec_wire() as u64)),
        ] + opt_field(
            "label"@,
            match m.label {
                Option::None => None,
                Option::Some(s) => Some(WireModel::Text(s)),
            },
        ) + opt_field(
            "custom_id"@,
            match m.custom_id {
                Option::None => None,
                Option::Some(s) => Some(WireModel::Text(s)),
            },
        ) + opt_field(
            "url"@,
            match m.url {
                Option::None => None,
                Option::Some(s) => Some(WireModel::Text(s)),
            },
        ) + opt_field(
            "disabled"@,
            match m.disabled {
                Option::None => None,
                Option::Some(b) => Some(WireModel::Bool(b)),
            },
        ),
    )
}

impl ButtonComponent {
    /// Encodes this button as a wire object.
    pub fn encode(&self) -> (r: WireValue)
        ensures
            r@ == spec_button_wire(self@),
    {
        let mut fields: Vec<WireField> = Vec::new();
        fields.push(WireField { key: "type".to_owned(), value: WireValue::UInt(2) });
        fields.push(
            WireField { key: "style".to_owned(), value: WireValue::UInt(self.style.wire() as u64) },
        );
        match &self.label {
            None => (),
            Some(s) => fields.push(
                WireField { key: "label".to_owned(), value: WireValue::Text(s.clone()) },
            ),
        }
        match &self.custom_id {
            None => (),
            Some(s) => fields.push(
                WireField { key: "custom_id".to_owned(), value: WireValue::Text(s.clone()) },
            ),
        }
        match &self.url {
            None => (),
            Some(s) => fields.push(
                WireField { key: "url".to_owned(), value: WireValue::Text(s.clone()) },
            ),
        }
        match &self.disabled {
            None => (),
            Some(b) => fields.push(
                WireField { key: "disabled".to_owned(), value: WireValue::Bool(*b) },
            ),
        }
        proof {
            crate::wire::lemma_model_fields(fields@);
            assert(model_fields(fields@) =~= spec_button_wire(self@)->Object_0);
        }
        WireValue::Object(fields)
    }
}

/// A builder for [`ButtonComponent`]: accumulates the optional fields and
/// validates them at [`ButtonComponentBuilder::build`].
pub struct ButtonComponentBuilder {
    /// The button's style, once set.
    pub style: Option<ButtonStyle>,
    /// The button's label, once set.
    pub label: Option<String>,
    /// The button's custom identifier, once set.
    pub custom_id: Option<String>,
    /// The button's URL, once set.
    pub url: Option<String>,
    /// Whether the button is disabled, once set.
    pub disabled: Option<bool>,
}

impl ButtonComponentBuilder {
    /// Starts a builder with no field set.
    pub fn new() -> (r: Self)
        ensures
            r.style is None,
            r.label is None,
            r.custom_id is None,
            r.url is None,
            r.disabled is None,
    {
        ButtonComponentBuilder {
            style: None,
            label: None,
            custom_id: None,
            url: None,
            disabled: None,
        }
    }

    /// Sets the style of the button.
    pub fn style(self, style: ButtonStyle) -> (r: Self)
        ensures
            r == (ButtonComponentBuilder { style: Some(style), ..self }),
    {
        ButtonComponentBuilder { style: Some(style), ..self }
    }

    /// Sets the label of the button.
    pub fn label(self, label: String) -> (r: Self)
        ensures
            r == (ButtonComponentBuilder { label: Some(label), ..self }),
    {
        ButtonComponentBuilder { label: Some(label), ..self }
    }

    /// Sets the custom identifier of the button.
    pub fn custom_id(self, custom_id: String) -> (r: Self)
        ensures
            r == (ButtonComponentBuilder { custom_id: Some(custom_id), ..self }),
    {
        ButtonComponentBuilder { custom_id: Some(custom_id), ..self }
    }

    /// Sets the URL of the button.
    pub fn url(self, url: String) -> (r: Self)
        ensures
            r == (ButtonComponentBuilder { url: Some(url), ..self }),
    {
        ButtonComponentBuilder { url: Some(url), ..self }
    }

    /// Marks the button disabled.
    pub fn disabled(self) -> (r: Self)
        ensures
            r == (ButtonComponentBuilder { disabled: Some(true), ..self }),
    {
        ButtonComponentBuilder { disabled: Some(true), ..self }
    }

    /// Builds the button.  The style must be set.
    pub fn build(self) -> (r: Result<ButtonComponent, CodecError>)
        ensures
            r is Ok <==> self.style is Some,
            r matches Ok(b) ==> ({
                &&& b@.style == self.style->Some_0
                &&& b@.label == (match self.label {
                    Option::None => None::<Seq<char>>,
                    Option::Some(s) => Some(s@),
                })
                &&& b@.custom_id == (match self.custom_id {
                    Option::None => None::<Seq<char>>,
                    Option::Some(s) => Some(s@),
                })
                &&& b@.url == (match self.url {
                    Option::None => None::<Seq<char>>,
                    Option::Some(s) => Some(s@),
                })
                &&& b@.disabled == self.disabled
            }),
            self.style is None ==> (r matches Err(CodecError::MissingRequiredField(f)) && f@
                == "style"@),
    {
        let style = match self.style {
            Some(s) => s,
            None => {
                return Err(CodecError::MissingRequiredField("style"));
            },
        };
        Ok(
            ButtonComponent {
                style,
                label: self.label,
                custom_id: self.custom_id,
                url: self.url,
                disabled: self.disabled,
            },
        )
    }
}

/// The mathematical model of a text input.
pub struct TextInputModel {
    /// The input's custom identifier.
    pub custom_id: Seq<char>,
    /// The input's style.
    pub style: TextInputStyle,
    /// The input's label.
    pub label: Seq<char>,
    /// The input's minimum length, once set.
    pub min_length: Option<u16>,
    /// The input's maximum length, once set.
    pub max_length: Option<u16>,
    /// Whether the input must be filled, once set.
    pub required: Option<bool>,
    /// The input's prefilled value, once set.
    pub value: Option<Seq<char>>,
    /// The input's placeholder, once set.
    pub placeholder: Option<Seq<char>>,
}

/// A text input of a modal: a custom identifier, a style, a label, and
/// optional length bounds, required flag, prefilled value, and placeholder.
#[derive(Debug)]
pub struct TextInput {
    /// The input's custom identifier.
    pub custom_id: String,
    /// The input's style.
    pub style: TextInputStyle,
    /// The input's label.
    pub label: String,
    /// The input's minimum length, once set.
    pub min_length: Option<u16>,
    /// The input's maximum length, once set.
    pub max_length: Option<u16>,
    /// Whether the input must be filled, once set.
    pub required: Option<bool>,
    /// The input's prefilled value, once set.
    pub value: Option<String>,
    /// The input's placeholder, once set.
    pub placeholder: Option<String>,
}

impl TextInput {
    /// The mathematical model of this input.
    pub open spec fn model(self) -> TextInputModel {
        TextInputModel {
            custom_id: self.custom_id@,
            style: self.style,
            label: self.label@,
            min_length: self.min_length,
            max_length: self.max_length,
            required: self.required,
            value: match self.value {
                Option::None => None,
                Option::Some(s) => Some(s@),
            },
            placeholder: match self.placeholder {
                Option::None => None,
                Option::Some(s) => Some(s@),
            },
        }
    }
}

impl View for TextInput {
    type V = TextInputModel;

    open spec fn view(&self) -> TextInputModel {
        self.model()
    }
}

/// The wire form of a text input: `type`, `custom_id`, `style`, and
/// `label` always, the length bounds, required flag, value, and
/// placeholder only when set.
pub open spec fn spec_text_input_wire(m: TextInputModel) -> WireModel {
    WireModel::Object(
        seq![
            ("type"@, WireModel::UInt(4)),
            ("custom_id"@, WireModel::Text(m.custom_id)),
            ("style"@, WireModel::UInt(m.style.spec_wire() as u64)),
            ("label"@, WireModel::Text(m.label)),
        ] + opt_field(
            "min_length"@,
            match m.min_length {
                Option::None => None,
                Option::Some(n) => Some(WireModel::UInt(n as u64)),
            },
        ) + opt_field(
            "max_length"@,
            match m.max_length {
                Option::None => None,
                Option::Some(n) => Some(WireModel::UInt(n as u64)),
            },
        ) + opt_field(
            "required"@,
            match m.required {
                Option::None => None,
                Option::Some(b) => Some(WireModel::Bool(b)),
            },
        ) + opt_field(
            "value"@,
            match m.value {
                Option::None => None,
                Option::Some(s) => Some(WireModel::Text(s)),
            },
        ) + opt_field(
            "placeholder"@,
            match m.placeholder {
                Option::None => None,
                Option::Some(s) => Some(WireModel::Text(s)),
            },
        ),
    )
}

impl TextInput {
    /// Encodes this input as a wire object.
    #[verifier::rlimit(100)]
    pub fn encode(&self) -> (r: WireValue)
        ensures
            r@ == spec_text_input_wire(self@),
    {
        let mut fields: Vec<WireField> = Vec::new();
        fields.push(WireField { key: "type".to_owned(), value: WireValue::UInt(4) });
        fields.push(
            WireField {
                key: "custom_id".to_owned(),
                value: WireValue::Text(self.custom_id.clone()),
            },
        );
        fields.push(
            WireField { key: "style".to_owned(), value: WireValue::UInt(self.style.wire() as u64) },
        );
        fields.push(
            WireField { key: "label".to_owned(), value: WireValue::Text(self.label.clone()) },
        );
        match &self.min_length {
            None => (),
            Some(n) => fields.push(
                WireField { key: "min_length".to_owned(), value: WireValue::UInt(*n as u64) },
            ),
        }
        match &self.max_length {
            None => (),
            Some(n) => fields.push(
                WireField { key: "max_length".to_owned(), value: WireValue::UInt(*n as u64) },
            ),
        }
        match &self.required {
            None => (),
            Some(b) => fields.push(
                WireField { key: "required".to_owned(), value: WireValue::Bool(*b) },
            ),
        }
        match &self.value {
            None => (),
            Some(s) => fields.push(
                WireField { key: "value".to_owned(), value: WireValue::Text(s.clone()) },
            ),
        }
        match &self.placeholder {
            None => (),
            Some(s) => fields.push(
                WireField { key: "placeholder".to_owned(), value: WireValue::Text(s.clone()) },
            ),
        }
        proof {
            crate::wire::lemma_model_fields(fields@);
            assert(model_fields(fields@) =~= spec_text_input_wire(self@)->Object_0);
        }
        WireValue::Object(fields)
    }
}

/// A builder for [`TextInput`]: accumulates the optional fields and
/// validates them at [`TextInputBuilder::build`].
pub struct TextInputBuilder {
    /// The input's custom identifier, once set.
    pub custom_id: Option<String>,
    /// The input's style, once set.
    pub style: Option<TextInputStyle>,
    /// The input's label, once set.
    pub label: Option<String>,
    /// The input's minimum length, once set.
    pub min_length: Option<u16>,
    /// The input's maximum length, once set.
    pub max_length: Option<u16>,
    /// Whether the input must be filled, once set.
    pub required: Option<bool>,
    /// The input's prefilled value, once set.
    pub value: Option<String>,
    /// The input's placeholder, once set.
    pub placeholder: Option<String>,
}

impl TextInputBuilder {
    /// Starts a builder with no field set.
    pub fn new() -> (r: Self)
        ensures
            r.custom_id is None,
            r.style is None,
            r.label is None,
            r.min_length is None,
            r.max_length is None,
            r.required is None,
            r.value is None,
            r.placeholder is None,
    {
        TextInputBuilder {
            custom_id: None,
            style: None,
            label: None,
            min_length: None,
            max_length: None,
            required: None,
            value: None,
            placeholder: None,
        }
    }

    /// Sets the custom identifier of the input.
    pub fn custom_id(self, custom_id: String) -> (r: Self)
        ensures
            r == (TextInputBuilder { custom_id: Some(custom_id), ..self }),
    {
        TextInputBuilder { custom_id: Some(custom_id), ..self }
    }

    /// Sets the style of the input.
    pub fn style(self, style: TextInputStyle) -> (r: Self)
        ensures
            r == (TextInputBuilder { style: Some(style), ..self }),
    {
        TextInputBuilder { style: Some(style), ..self }
    }

    /// Sets the label of the input.
    pub fn label(self, label: String) -> (r: Self)
        ensures
            r == (TextInputBuilder { label: Some(label), ..self }),
    {
        TextInputBuilder { label: Some(label), ..self }
    }

    /// Sets the minimum length of the input.
    pub fn min_length(self, min_length: u16) -> (r: Self)
        ensures
            r == (TextInputBuilder { min_length: Some(min_length), ..self }),
    {
        TextInputBuilder { min_length: Some(min_length), ..self }
    }

    /// Sets the maximum length of the input.
    pub fn max_length(self, max_length: u16) -> (r: Self)
        ensures
            r == (TextInputBuilder { max_length: Some(max_length), ..self }),
    {
        TextInputBuilder { max_length: Some(max_length), ..self }
    }

    /// Marks the input required.
    pub fn required(self) -> (r: Self)
        ensures
            r == (TextInputBuilder { required: Some(true), ..self }),
    {
        TextInputBuilder { required: Some(true), ..self }
    }

    /// Sets the prefilled value of the input.
    pub fn value(self, value: String) -> (r: Self)
        ensures
            r == (TextInputBuilder { value: Some(value), ..self }),
    {
        TextInputBuilder { value: Some(value), ..self }
    }

    /// Sets the placeholder of the input.
    pub fn placeholder(self, placeholder: String) -> (r: Self)
        ensures
            r == (TextInputBuilder { placeholder: Some(placeholder), ..self }),
    {
        TextInputBuilder { placeholder: Some(placeholder), ..self }
    }

    /// Builds the input.  Checks run in order and fail fast: the custom
    /// identifier, the style, and the label must be set; the label may hold
    /// at most 45 bytes; the minimum length lies within [0, 4000] and the
    /// maximum within [1, 4000].
    pub fn build(self) -> (r: Result<TextInput, CodecError>)
        ensures
            r is Ok <==> ({
                &&& self.custom_id is Some
                &&& self.style is Some
                &&& self.label is Some
                &&& utf8_len(self.label->Some_0@) <= 45
                &&& (match self.min_length {
                    Option::None => true,
                    Option::Some(n) => n <= 4000,
                })
                &&& (match self.max_length {
                    Option::None => true,
                    Option::Some(n) => 1 <= n <= 4000,
                })
            }),
            r matches Ok(t) ==> ({
                &&& t@.custom_id == self.custom_id->Some_0@
                &&& t@.style == self.style->Some_0
                &&& t@.label == self.label->Some_0@
                &&& t@.min_length == self.min_length
                &&& t@.max_length == self.max_length
                &&& t@.required == self.required
                &&& t@.value == (match self.value {
                    Option::None => None::<Seq<char>>,
                    Option::Some(s) => Some(s@),
                })
                &&& t@.placeholder == (match self.placeholder {
                    Option::None => None::<Seq<char>>,
                    Option::Some(s) => Some(s@),
                })
            }),
            self.custom_id is None ==> (r matches Err(CodecError::MissingRequiredField(f)) && f@
                == "custom_id"@),
            (self.custom_id is Some && self.style is None) ==> (r matches Err(
                CodecError::MissingRequiredField(f),
            ) && f@ == "style"@),
            (self.custom_id is Some && self.style is Some && self.label is None) ==> (r matches Err(
                CodecError::MissingRequiredField(f),
            ) && f@ == "label"@),
            match self.label {
                Option::Some(l) => (self.custom_id is Some && self.style is Some && utf8_len(l@)
                    > 45) ==> (r matches Err(CodecError::ValueTooLong(f, max)) && f@ == "label"@
                    && max == 45),
                Option::None => true,
            },
            match (self.label, self.min_length) {
                (Option::Some(l), Option::Some(n)) => (self.custom_id is Some
                    && self.style is Some && utf8_len(l@) <= 45 && n > 4000) ==> r == Err::<
                    TextInput,
                    CodecError,
                >(CodecError::InvalidFieldRange("min_length", 0, 4000)),
                _ => true,
            },
            match (self.label, self.max_length) {
                (Option::Some(l), Option::Some(n)) => (self.custom_id is Some
                    && self.style is Some && utf8_len(l@) <= 45 && (match self.min_length {
                    Option::None => true,
                    Option::Some(mn) => mn <= 4000,
                }) && !(1 <= n <= 4000)) ==> r == Err::<TextInput, CodecError>(
                    CodecError::InvalidFieldRange("max_length", 1, 4000),
                ),
                _ => true,
            },
    {
        let custom_id = match self.custom_id {
            Some(c) => c,
            None => {
                return Err(CodecError::MissingRequiredField("custom_id"));
            },
        };
        let style = match self.style {
            Some(s) => s,
            None => {
                return Err(CodecError::MissingRequiredField("style"));
            },
        };
        let label = match self.label {
            Some(l) => l,
            None => {
                return Err(CodecError::MissingRequiredField("label"));
            },
        };
        if string_byte_len(&label) > 45 {
            return Err(CodecError::ValueTooLong("label", 45));
        }
        match &self.min_length {
            None => (),
            Some(n) => match check_range("min_length", *n as i64, 0, 4000) {
                Ok(()) => (),
                Err(e) => {
                    return Err(e);
                },
            },
        }
        match &self.max_length {
            None => (),
            Some(n) => match check_range("max_length", *n as i64, 1, 4000) {
                Ok(()) => (),
                Err(e) => {
                    return Err(e);
                },
            },
        }
        Ok(
            TextInput {
                custom_id,
                style,
                label,
                min_length: self.min_length,
                max_length: self.max_length,
                required: self.required,
                value: self.value,
                placeholder: self.placeholder,
            },
        )
    }
}

/// The mathematical model of a message component.
pub enum MessageComponentModel {
    /// A container row of components.
    ActionRow(ActionRowModel),
    /// A button.
    Button(ButtonComponentModel),
    /// A select menu over string choices.
    StringSelect(SelectMenuModel),
    /// A text input.
    TextInput(TextInputModel),
    /// A select menu over users.
    UserSelect(SelectMenuModel),
    /// A select menu over roles.
    RoleSelect(SelectMenuModel),
    /// A select menu over mentionable entities.
    MentionableSelect(SelectMenuModel),
    /// A select menu over channels.
    ChannelSelect(SelectMenuModel),
}

/// The mathematical model of an action row.
pub struct ActionRowModel {
    /// The row's components, in order.
    pub components: Seq<MessageComponentModel>,
}

/// A message component: a container row, a button, one of the four
/// select-menu flavors, or a text input.  Each variant encodes its own
/// discriminant and field set.
#[derive(Debug)]
pub enum MessageComponent {
    /// A container row of components.
    ActionRow(ActionRow),
    /// A button.
    Button(ButtonComponent),
    /// A select menu over string choices.
    StringSelect(SelectMenu),
    /// A text input.
    TextInput(TextInput),
    /// A select menu over users.
    UserSelect(SelectMenu),
    /// A select menu over roles.
    RoleSelect(SelectMenu),
    /// A select menu over mentionable entities.
    MentionableSelect(SelectMenu),
    /// A select menu over channels.
    ChannelSelect(SelectMenu),
}

/// A container row holding an ordered list of components.  The platform
/// permits one level of nesting; this layer does not bound it mechanically.
#[derive(Debug)]
pub struct ActionRow {
    components: Vec<MessageComponent>,
}

impl MessageComponent {
    /// The mathematical model of this component.
    pub open spec fn model(self) -> MessageComponentModel
        decreases self,
    {
        match self {
            MessageComponent::ActionRow(a) => MessageComponentModel::ActionRow(a.model()),
            MessageComponent::Button(b) => MessageComponentModel::Button(b.model()),
            MessageComponent::StringSelect(m) => MessageComponentModel::StringSelect(m.model()),
            MessageComponent::TextInput(t) => MessageComponentModel::TextInput(t.model()),
            MessageComponent::UserSelect(m) => MessageComponentModel::UserSelect(m.model()),
            MessageComponent::RoleSelect(m) => MessageComponentModel::RoleSelect(m.model()),
            MessageComponent::MentionableSelect(m) => MessageComponentModel::MentionableSelect(
                m.model(),
            ),
            MessageComponent::ChannelSelect(m) => MessageComponentModel::ChannelSelect(m.model()),
        }
    }
}

impl ActionRow {
    /// The mathematical model of this row.
    pub closed spec fn model(self) -> ActionRowModel
        decreases self,
    {
        ActionRowModel {
            components: {
                proof {
                    vstd::std_specs::vec::axiom_vec_decreases_to_view(self.components);
                }
                model_component_seq(self.components@)
            },
        }
    }
}

/// The models of a sequence of message components, element by element.
pub open spec fn model_component_seq(items: Seq<MessageComponent>) -> Seq<MessageComponentModel>
    decreases items,
{
    if items.len() == 0 {
        Seq::empty()
    } else {
        proof {
            vstd::seq::axiom_seq_index_decreases(items, 0);
            vstd::seq::axiom_seq_subrange_decreases(items, 1, items.len() as int);
        }
        seq![items[0].model()] + model_component_seq(items.drop_first())
    }
}

proof fn lemma_model_component_seq(items: Seq<MessageComponent>)
    ensures
        model_component_seq(items).len() == items.len(),
        forall|i: int|
            0 <= i < items.len() ==> model_component_seq(items)[i] == items[i].model(),
    decreases items.len(),
{
    if items.len() > 0 {
        lemma_model_component_seq(items.drop_first());
    }
}

impl View for MessageComponent {
    type V = MessageComponentModel;

    open spec fn view(&self) -> MessageComponentModel {
        self.model()
    }
}

impl View for ActionRow {
    type V = ActionRowModel;

    closed spec fn view(&self) -> ActionRowModel {
        self.model()
    }
}

/// The wire form of a message component: each variant's own discriminant
/// and field set; the four select-menu flavors share one shape under
/// discriminants 3, 5, 6, 7, and 8.
pub open spec fn spec_component_wire(m: MessageComponentModel) -> WireModel
    decreases m,
{
    match m {
        MessageComponentModel::ActionRow(a) => spec_action_row_wire(a),
        MessageComponentModel::Button(b) => spec_button_wire(b),
        MessageComponentModel::StringSelect(s) => spec_select_menu_wire(3, s),
        MessageComponentModel::TextInput(t) => spec_text_input_wire(t),
        MessageComponentModel::UserSelect(s) => spec_select_menu_wire(5, s),
        MessageComponentModel::RoleSelect(s) => spec_select_menu_wire(6, s),
        MessageComponentModel::MentionableSelect(s) => spec_select_menu_wire(7, s),
        MessageComponentModel::ChannelSelect(s) => spec_select_menu_wire(8, s),
    }
}

/// The wire form of an action row: its discriminant and its components.
pub open spec fn spec_action_row_wire(a: ActionRowModel) -> WireModel
    decreases a,
{
    WireModel::Object(
        seq![
            ("type"@, WireModel::UInt(1)),
            ("components"@, WireModel::Array(spec_components_wire(a.components))),
        ],
    )
}

/// The wire forms of a sequence of message components, element by element.
pub open spec fn spec_components_wire(list: Seq<MessageComponentModel>) -> Seq<WireModel>
    decreases list,
{
    if list.len() == 0 {
        Seq::empty()
    } else {
        proof {
            vstd::seq::axiom_seq_index_decreases(list, 0);
            vstd::seq::axiom_seq_subrange_decreases(list, 1, list.len() as int);
        }
        seq![spec_component_wire(list[0])] + spec_components_wire(list.drop_first())
    }
}

proof fn lemma_spec_components_wire(list: Seq<MessageComponentModel>)
    ensures
        spec_components_wire(list).len() == list.len(),
        forall|i: int|
            0 <= i < list.len() ==> spec_components_wire(list)[i] == spec_component_wire(list[i]),
    decreases list.len(),
{
    if list.len() > 0 {
        lemma_spec_components_wire(list.drop_first());
    }
}

/// Encodes each component of a list as a wire object, in order.
pub(crate) fn encode_component_list(list: &Vec<MessageComponent>) -> (r: Vec<WireValue>)
    ensures
        model_seq(r@) == spec_components_wire(model_component_seq(list@)),
    decreases *list,
{
    let ghost ms = model_component_seq(list@);
    proof {
        lemma_model_component_seq(list@);
        lemma_spec_components_wire(ms);
    }
    let mut out: Vec<WireValue> = Vec::new();
    let n = list.len();
    let mut i: usize = 0;
    while i < n
        invariant
            n == list@.len(),
            i <= n,
            out@.len() == i as int,
            ms == model_component_seq(list@),
            ms.len() == list@.len(),
            forall|j: int| 0 <= j < list@.len() ==> ms[j] == list@[j].model(),
            forall|j: int| 0 <= j < i ==> #[trigger] out@[j].model() == spec_component_wire(ms[j]),
        decreases n - i,
    {
        proof {
            vstd::std_specs::vec::axiom_vec_index_decreases(*list, i as int);
        }
        let w = list[i].encode();
        proof {
            assert(w.model() == spec_component_wire(ms[i as int]));
        }
        out.push(w);
        i += 1;
    }
    proof {
        lemma_spec_components_wire(ms);
        crate::wire::lemma_model_seq(out@);
        assert forall|j: int| 0 <= j < out@.len() implies model_seq(out@)[j]
            == spec_components_wire(ms)[j] by {
            assert(model_seq(out@)[j] == out@[j].model());
            assert(spec_components_wire(ms)[j] == spec_component_wire(ms[j]));
        }
        assert(model_seq(out@) =~= spec_components_wire(ms));
    }
    out
}

impl MessageComponent {
    /// Encodes this component as a wire object, dispatching on its variant.
    pub fn encode(&self) -> (r: WireValue)
        ensures
            r@ == spec_component_wire(self@),
        decreases *self,
    {
        match self {
            MessageComponent::ActionRow(a) => a.encode(),
            MessageComponent::Button(b) => b.encode(),
            MessageComponent::StringSelect(m) => m.encode(3),
            MessageComponent::TextInput(t) => t.encode(),
            MessageComponent::UserSelect(m) => m.encode(5),
            MessageComponent::RoleSelect(m) => m.encode(6),
            MessageComponent::MentionableSelect(m) => m.encode(7),
            MessageComponent::ChannelSelect(m) => m.encode(8),
        }
    }
}

impl ActionRow {
    /// Encodes this row as a wire object of its discriminant and its
    /// components.
    pub fn encode(&self) -> (r: WireValue)
        ensures
            r@ == spec_action_row_wire(self@),
        decreases *self,
    {
        proof {
            assert(decreases_to!(*self => self.components));
        }
        let ws = encode_component_list(&self.components);
        let mut fields: Vec<WireField> = Vec::new();
        fields.push(WireField { key: "type".to_owned(), value: WireValue::UInt(1) });
        fields.push(WireField { key: "components".to_owned(), value: WireValue::Array(ws) });
        proof {
            crate::wire::lemma_model_fields(fields@);
            assert(model_fields(fields@) =~= spec_action_row_wire(self@)->Object_0);
        }
        WireValue::Object(fields)
    }
}

/// A builder for [`ActionRow`]: accumulates components and builds without
/// further checks.
pub struct ActionRowBuilder {
    /// The row's components so far, in order.
    pub components: Vec<MessageComponent>,
}

impl ActionRowBuilder {
    /// Starts a builder with no component.
    pub fn new() -> (r: Self)
        ensures
            r.components@.len() == 0,
    {
        ActionRowBuilder { components: Vec::new() }
    }

    /// Sets the whole component list.
    pub fn components(self, components: Vec<MessageComponent>) -> (r: Self)
        ensures
            r.components == components,
    {
        ActionRowBuilder { components }
    }

    /// Adds one component to the row.
    pub fn component(self, component: MessageComponent) -> (r: Self)
        ensures
            r.components@ == self.components@.push(component),
    {
        let mut components = self.components;
        components.push(component);
        ActionRowBuilder { components }
    }

    /// Builds the row.
    pub fn build(self) -> (r: ActionRow)
        ensures
            r@.components == model_component_seq(self.components@),
    {
        ActionRow { components: self.components }
    }
}

} // verus!
