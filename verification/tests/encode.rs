//! Tests of the encode path: choices, components, messages, and
//! interaction responses, against the fixed wire discriminant tables.

use interaction_codec::errors::CodecError;
use interaction_codec::register::{encode_choice_value, ChoiceValue, CommandOptionChoiceBuilder};
use interaction_codec::response::{
    ActionRowBuilder, Autocomplete, ButtonComponentBuilder, ButtonStyle, InteractionResponse,
    MessageBuilder, MessageComponent, MessageFlags, Modal, SelectMenuBuilder,
    SelectMenuOptionBuilder, TextInputBuilder, TextInputStyle, EPHEMERAL, LOADING,
    SUPPRESS_NOTIFICATIONS,
};
use interaction_codec::wire::{WireField, WireValue};

fn field(key: &str, value: WireValue) -> WireField {
    WireField {
        key: key.to_string(),
        value,
    }
}

#[test]
fn choice_value_of_101_chars_fails_to_serialize() {
    let long = ChoiceValue::String("a".repeat(101));
    assert_eq!(
        encode_choice_value(&long),
        Err(CodecError::ValueTooLong("value", 100))
    );

    let choice = CommandOptionChoiceBuilder::new()
        .name("ok".to_string())
        .value(ChoiceValue::String("a".repeat(100)))
        .build()
        .unwrap();
    let wire = choice.encode().unwrap();
    assert_eq!(
        wire.get("value"),
        Some(&WireValue::Text("a".repeat(100)))
    );
}

#[test]
fn choice_encodes_name_and_value() {
    let choice = CommandOptionChoiceBuilder::new()
        .name("pi".to_string())
        .value(ChoiceValue::Float(3.14f64.to_bits()))
        .build()
        .unwrap();
    let wire = choice.encode().unwrap();
    assert_eq!(
        wire,
        WireValue::Object(vec![
            field("name", WireValue::Text("pi".to_string())),
            field("value", WireValue::Float(3.14f64.to_bits())),
        ])
    );
}

#[test]
fn button_encodes_discriminant_two_and_style() {
    let button = ButtonComponentBuilder::new()
        .style(ButtonStyle::Danger)
        .label("Stop".to_string())
        .custom_id("stop".to_string())
        .build()
        .unwrap();
    let wire = button.encode();
    assert_eq!(wire.get("type"), Some(&WireValue::UInt(2)));
    assert_eq!(wire.get("style"), Some(&WireValue::UInt(4)));
    assert_eq!(
        wire.get("label"),
        Some(&WireValue::Text("Stop".to_string()))
    );
    assert_eq!(
        wire.get("custom_id"),
        Some(&WireValue::Text("stop".to_string()))
    );
    assert_eq!(wire.get("url"), None);
    assert_eq!(wire.get("disabled"), None);
}

#[test]
fn button_styles_follow_the_table() {
    let styles = [
        (ButtonStyle::Primary, 1),
        (ButtonStyle::Secondary, 2),
        (ButtonStyle::Success, 3),
        (ButtonStyle::Danger, 4),
        (ButtonStyle::Link, 5),
        (ButtonStyle::Premium, 6),
    ];
    for (style, expected) in styles {
        let wire = ButtonComponentBuilder::new()
            .style(style)
            .build()
            .unwrap()
            .encode();
        assert_eq!(wire.get("style"), Some(&WireValue::UInt(expected)));
    }
}

fn bare_menu() -> interaction_codec::response::SelectMenu {
    SelectMenuBuilder::new()
        .custom_id("menu".to_string())
        .build()
        .unwrap()
}

#[test]
fn select_menu_flavors_differ_only_in_discriminant() {
    let flavors: Vec<(MessageComponent, u64)> = vec![
        (MessageComponent::StringSelect(bare_menu()), 3),
        (MessageComponent::UserSelect(bare_menu()), 5),
        (MessageComponent::RoleSelect(bare_menu()), 6),
        (MessageComponent::MentionableSelect(bare_menu()), 7),
        (MessageComponent::ChannelSelect(bare_menu()), 8),
    ];
    for (component, expected) in flavors {
        let wire = component.encode();
        assert_eq!(wire.get("type"), Some(&WireValue::UInt(expected)));
        assert_eq!(
            wire.get("custom_id"),
            Some(&WireValue::Text("menu".to_string()))
        );
        assert_eq!(wire.get("options"), None);
        assert_eq!(wire.get("placeholder"), None);
        assert_eq!(wire.get("disabled"), None);
    }
}

#[test]
fn select_menu_encodes_its_options() {
    let option = SelectMenuOptionBuilder::new()
        .label("One".to_string())
        .value("1".to_string())
        .description("first".to_string())
        .build()
        .unwrap();
    let menu = SelectMenuBuilder::new()
        .custom_id("pick".to_string())
        .option(option)
        .placeholder("Choose".to_string())
        .disabled()
        .build()
        .unwrap();
    let wire = MessageComponent::StringSelect(menu).encode();
    assert_eq!(
        wire.get("placeholder"),
        Some(&WireValue::Text("Choose".to_string()))
    );
    assert_eq!(wire.get("disabled"), Some(&WireValue::Bool(true)));
    match wire.get("options") {
        Some(WireValue::Array(items)) => {
            assert_eq!(
                items[0],
                WireValue::Object(vec![
                    field("label", WireValue::Text("One".to_string())),
                    field("value", WireValue::Text("1".to_string())),
                    field("description", WireValue::Text("first".to_string())),
                ])
            );
        }
        other => panic!("options should be an array, got {other:?}"),
    }
}

#[test]
fn text_input_encodes_discriminant_four() {
    let input = TextInputBuilder::new()
        .custom_id("answer".to_string())
        .style(TextInputStyle::Paragraph)
        .label("Answer".to_string())
        .min_length(1)
        .max_length(200)
        .required()
        .build()
        .unwrap();
    let wire = MessageComponent::TextInput(input).encode();
    assert_eq!(wire.get("type"), Some(&WireValue::UInt(4)));
    assert_eq!(wire.get("style"), Some(&WireValue::UInt(2)));
    assert_eq!(wire.get("min_length"), Some(&WireValue::UInt(1)));
    assert_eq!(wire.get("max_length"), Some(&WireValue::UInt(200)));
    assert_eq!(wire.get("required"), Some(&WireValue::Bool(true)));
    assert_eq!(wire.get("value"), None);
    assert_eq!(wire.get("placeholder"), None);
}

#[test]
fn action_row_encodes_discriminant_one_and_children() {
    let button = ButtonComponentBuilder::new()
        .style(ButtonStyle::Primary)
        .build()
        .unwrap();
    let row = ActionRowBuilder::new()
        .component(MessageComponent::Button(button))
        .build();
    let wire = row.encode();
    assert_eq!(wire.get("type"), Some(&WireValue::UInt(1)));
    match wire.get("components") {
        Some(WireValue::Array(items)) => {
            assert_eq!(items.len(), 1);
            assert_eq!(items[0].get("type"), Some(&WireValue::UInt(2)));
        }
        other => panic!("components should be an array, got {other:?}"),
    }
}

#[test]
fn message_flags_encode_as_raw_bits() {
    let flags = MessageFlags::from_bits(EPHEMERAL | LOADING);
    assert_eq!(flags.bits(), (1 << 6) | (1 << 7));
    assert!(flags.contains(MessageFlags::from_bits(EPHEMERAL)));
    assert!(!flags.contains(MessageFlags::from_bits(SUPPRESS_NOTIFICATIONS)));

    let joined = MessageFlags::empty().union(MessageFlags::from_bits(SUPPRESS_NOTIFICATIONS));
    assert_eq!(joined.bits(), 1 << 12);

    let message = MessageBuilder::new()
        .content("quiet".to_string())
        .flags(flags)
        .build();
    let wire = message.encode();
    assert_eq!(wire.get("flags"), Some(&WireValue::UInt(0xC0)));
    assert_eq!(
        wire.get("content"),
        Some(&WireValue::Text("quiet".to_string()))
    );
    assert_eq!(wire.get("tts"), None);
    assert_eq!(wire.get("components"), None);
}

#[test]
fn empty_message_encodes_as_empty_object() {
    let wire = MessageBuilder::new().build().encode();
    assert_eq!(wire, WireValue::Object(vec![]));
}

#[test]
fn pong_and_defer_omit_the_payload_key() {
    let pong = InteractionResponse::Pong.encode().unwrap();
    assert_eq!(
        pong,
        WireValue::Object(vec![field("type", WireValue::UInt(1))])
    );

    let defer = InteractionResponse::DeferResponse.encode().unwrap();
    assert_eq!(defer.get("type"), Some(&WireValue::UInt(5)));
    assert_eq!(defer.get("data"), None);
}

#[test]
fn message_responses_follow_the_discriminant_table() {
    let cases: Vec<(InteractionResponse, u64)> = vec![
        (
            InteractionResponse::Message(MessageBuilder::new().tts().build()),
            4,
        ),
        (
            InteractionResponse::DeferredUpdateMessage(MessageBuilder::new().build()),
            6,
        ),
        (
            InteractionResponse::UpdateMessage(MessageBuilder::new().build()),
            7,
        ),
    ];
    for (response, expected) in cases {
        let wire = response.encode().unwrap();
        assert_eq!(wire.get("type"), Some(&WireValue::UInt(expected)));
        assert!(wire.get("data").is_some());
    }
}

#[test]
fn autocomplete_response_carries_choices() {
    let choice = CommandOptionChoiceBuilder::new()
        .name("red".to_string())
        .value(ChoiceValue::Int(1))
        .build()
        .unwrap();
    let response = InteractionResponse::Autocomplete(Autocomplete::new().choice(choice));
    let wire = response.encode().unwrap();
    assert_eq!(wire.get("type"), Some(&WireValue::UInt(8)));
    let data = wire.get("data").unwrap();
    match data.get("choices") {
        Some(WireValue::Array(items)) => assert_eq!(items.len(), 1),
        other => panic!("choices should be an array, got {other:?}"),
    }
}

#[test]
fn modal_response_carries_id_title_components() {
    let input = TextInputBuilder::new()
        .custom_id("answer".to_string())
        .style(TextInputStyle::Short)
        .label("Answer".to_string())
        .build()
        .unwrap();
    let modal = Modal::new("quiz".to_string(), "Quiz".to_string())
        .component(MessageComponent::TextInput(input));
    let wire = InteractionResponse::Modal(modal).encode().unwrap();
    assert_eq!(wire.get("type"), Some(&WireValue::UInt(9)));
    let data = wire.get("data").unwrap();
    assert_eq!(
        data.get("custom_id"),
        Some(&WireValue::Text("quiz".to_string()))
    );
    assert_eq!(data.get("title"), Some(&WireValue::Text("Quiz".to_string())));
    assert!(data.get("components").is_some());
}
