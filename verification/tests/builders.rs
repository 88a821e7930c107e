//! Tests of the validating builders: presence checks, type checks, and
//! range checks, each failing fast with the first violated rule's error.

use interaction_codec::errors::CodecError;
use interaction_codec::register::{
    Choice, ChoiceValue, CommandBuilder, CommandOptionBuilder, CommandOptionChoiceBuilder,
};
use interaction_codec::response::{
    ButtonComponentBuilder, ButtonStyle, SelectMenuBuilder, SelectMenuOptionBuilder,
    TextInputBuilder, TextInputStyle,
};
use interaction_codec::types::{CommandKind, CommandOptionKind};
use interaction_codec::wire::WireValue;

fn minimal_option(kind: CommandOptionKind) -> CommandOptionBuilder {
    CommandOptionBuilder::new()
        .kind(kind)
        .name("pick".to_string())
        .description("picks a thing".to_string())
}

#[test]
fn option_builder_succeeds_for_valid_triples() {
    let kinds = vec![
        CommandOptionKind::SubCommand,
        CommandOptionKind::String,
        CommandOptionKind::Integer,
        CommandOptionKind::Number,
        CommandOptionKind::Attachment,
    ];
    for kind in kinds {
        let built = minimal_option(kind).build();
        assert!(built.is_ok());
    }
}

#[test]
fn minimal_option_payload_has_exactly_type_name_description() {
    let option = minimal_option(CommandOptionKind::String).build().unwrap();
    let wire = option.encode().unwrap();
    assert_eq!(wire.get("type"), Some(&WireValue::UInt(3)));
    assert_eq!(
        wire.get("name"),
        Some(&WireValue::Text("pick".to_string()))
    );
    assert_eq!(
        wire.get("description"),
        Some(&WireValue::Text("picks a thing".to_string()))
    );
    for absent in [
        "required",
        "choices",
        "options",
        "min_value",
        "max_value",
        "min_length",
        "max_length",
        "autocomplete",
    ] {
        assert_eq!(wire.get(absent), None, "{absent} should be omitted");
    }
}

#[test]
fn option_builder_requires_kind_name_description_in_order() {
    let missing_kind = CommandOptionBuilder::new().build();
    assert_eq!(
        missing_kind.unwrap_err(),
        CodecError::MissingRequiredField("kind")
    );

    let missing_name = CommandOptionBuilder::new()
        .kind(CommandOptionKind::String)
        .build();
    assert_eq!(
        missing_name.unwrap_err(),
        CodecError::MissingRequiredField("name")
    );

    let missing_description = CommandOptionBuilder::new()
        .kind(CommandOptionKind::String)
        .name("pick".to_string())
        .build();
    assert_eq!(
        missing_description.unwrap_err(),
        CodecError::MissingRequiredField("description")
    );
}

#[test]
fn option_min_value_rejects_string() {
    let built = minimal_option(CommandOptionKind::Integer)
        .min_value(ChoiceValue::String("three".to_string()))
        .build();
    assert_eq!(
        built.unwrap_err(),
        CodecError::TypeMismatch("integer or double", "string")
    );
}

#[test]
fn option_max_value_rejects_string() {
    let built = minimal_option(CommandOptionKind::Integer)
        .max_value(ChoiceValue::String("nine".to_string()))
        .build();
    assert_eq!(
        built.unwrap_err(),
        CodecError::TypeMismatch("integer or double", "string")
    );
}

#[test]
fn option_max_length_fails_at_zero() {
    let built = minimal_option(CommandOptionKind::String)
        .max_length(ChoiceValue::Int(0))
        .build();
    assert_eq!(
        built.unwrap_err(),
        CodecError::InvalidFieldRange("max_length", 1, 6000)
    );
}

#[test]
fn option_max_length_succeeds_at_boundaries() {
    assert!(minimal_option(CommandOptionKind::String)
        .max_length(ChoiceValue::Int(1))
        .build()
        .is_ok());
    assert!(minimal_option(CommandOptionKind::String)
        .max_length(ChoiceValue::Int(6000))
        .build()
        .is_ok());
}

#[test]
fn option_max_length_fails_above_cap() {
    let built = minimal_option(CommandOptionKind::String)
        .max_length(ChoiceValue::Int(6001))
        .build();
    assert_eq!(
        built.unwrap_err(),
        CodecError::InvalidFieldRange("max_length", 1, 6000)
    );
}

#[test]
fn option_max_length_rejects_non_integer() {
    let built = minimal_option(CommandOptionKind::String)
        .max_length(ChoiceValue::Float(0.5f64.to_bits()))
        .build();
    assert_eq!(
        built.unwrap_err(),
        CodecError::TypeMismatch("integer", "double")
    );
}

#[test]
fn option_min_length_fails_above_cap() {
    let built = minimal_option(CommandOptionKind::String)
        .min_length(ChoiceValue::Int(6001))
        .build();
    assert_eq!(
        built.unwrap_err(),
        CodecError::InvalidFieldRange("min_length", 0, 6000)
    );
}

#[test]
fn option_min_length_succeeds_at_boundaries() {
    assert!(minimal_option(CommandOptionKind::String)
        .min_length(ChoiceValue::Int(0))
        .build()
        .is_ok());
    assert!(minimal_option(CommandOptionKind::String)
        .min_length(ChoiceValue::Int(6000))
        .build()
        .is_ok());
}

#[test]
fn option_min_length_fails_below_zero() {
    let built = minimal_option(CommandOptionKind::String)
        .min_length(ChoiceValue::Int(-1))
        .build();
    assert_eq!(
        built.unwrap_err(),
        CodecError::InvalidFieldRange("min_length", 0, 6000)
    );
}

#[test]
fn command_builder_requires_name_then_kind() {
    let missing_name = CommandBuilder::new().build();
    assert_eq!(
        missing_name.unwrap_err(),
        CodecError::MissingRequiredField("name")
    );

    let missing_kind = CommandBuilder::new().name("ping".to_string()).build();
    assert_eq!(
        missing_kind.unwrap_err(),
        CodecError::MissingRequiredField("kind")
    );
}

#[test]
fn command_description_defaults_to_empty() {
    let command = CommandBuilder::new()
        .name("ping".to_string())
        .kind(CommandKind::ChatInput)
        .build()
        .unwrap();
    let wire = command.encode().unwrap();
    assert_eq!(
        wire.get("description"),
        Some(&WireValue::Text(String::new()))
    );
    assert_eq!(wire.get("options"), None);
}

fn choice(name: &str, value: ChoiceValue) -> Choice {
    CommandOptionChoiceBuilder::new()
        .name(name.to_string())
        .value(value)
        .build()
        .unwrap()
}

#[test]
fn choice_builder_requires_name_then_value() {
    let missing_name = CommandOptionChoiceBuilder::new().build();
    assert_eq!(
        missing_name.unwrap_err(),
        CodecError::MissingRequiredField("name")
    );

    let missing_value = CommandOptionChoiceBuilder::new()
        .name("red".to_string())
        .build();
    assert_eq!(
        missing_value.unwrap_err(),
        CodecError::MissingRequiredField("value")
    );
}

#[test]
fn choice_builder_caps_string_values() {
    let long = "x".repeat(101);
    let built = CommandOptionChoiceBuilder::new()
        .name("long".to_string())
        .value(ChoiceValue::String(long))
        .build();
    assert_eq!(built.unwrap_err(), CodecError::ValueTooLong("value", 100));

    let exact = "x".repeat(100);
    assert!(CommandOptionChoiceBuilder::new()
        .name("exact".to_string())
        .value(ChoiceValue::String(exact))
        .build()
        .is_ok());
}

#[test]
fn option_carries_choices_in_order() {
    let option = minimal_option(CommandOptionKind::String)
        .choice(choice("red", ChoiceValue::String("r".to_string())))
        .choice(choice("green", ChoiceValue::Int(2)))
        .build()
        .unwrap();
    let wire = option.encode().unwrap();
    match wire.get("choices") {
        Some(WireValue::Array(items)) => {
            assert_eq!(items.len(), 2);
            assert_eq!(
                items[0].get("name"),
                Some(&WireValue::Text("red".to_string()))
            );
            assert_eq!(
                items[1].get("value"),
                Some(&WireValue::Int(2))
            );
        }
        other => panic!("choices should be an array, got {other:?}"),
    }
}

#[test]
fn button_builder_requires_style() {
    let built = ButtonComponentBuilder::new().build();
    assert_eq!(
        built.unwrap_err(),
        CodecError::MissingRequiredField("style")
    );
    assert!(ButtonComponentBuilder::new()
        .style(ButtonStyle::Primary)
        .build()
        .is_ok());
}

#[test]
fn select_menu_builder_requires_custom_id() {
    let built = SelectMenuBuilder::new().build();
    assert_eq!(
        built.unwrap_err(),
        CodecError::MissingRequiredField("custom_id")
    );
}

#[test]
fn select_menu_option_builder_requires_label_then_value() {
    let missing_label = SelectMenuOptionBuilder::new().build();
    assert_eq!(
        missing_label.unwrap_err(),
        CodecError::MissingRequiredField("label")
    );

    let missing_value = SelectMenuOptionBuilder::new()
        .label("One".to_string())
        .build();
    assert_eq!(
        missing_value.unwrap_err(),
        CodecError::MissingRequiredField("value")
    );
}

fn minimal_text_input() -> TextInputBuilder {
    TextInputBuilder::new()
        .custom_id("field".to_string())
        .style(TextInputStyle::Short)
        .label("Field".to_string())
}

#[test]
fn text_input_builder_requires_custom_id_style_label() {
    assert_eq!(
        TextInputBuilder::new().build().unwrap_err(),
        CodecError::MissingRequiredField("custom_id")
    );
    assert_eq!(
        TextInputBuilder::new()
            .custom_id("field".to_string())
            .build()
            .unwrap_err(),
        CodecError::MissingRequiredField("style")
    );
    assert_eq!(
        TextInputBuilder::new()
            .custom_id("field".to_string())
            .style(TextInputStyle::Paragraph)
            .build()
            .unwrap_err(),
        CodecError::MissingRequiredField("label")
    );
}

#[test]
fn text_input_label_capped_at_45() {
    let built = minimal_text_input().label("y".repeat(46)).build();
    assert_eq!(built.unwrap_err(), CodecError::ValueTooLong("label", 45));
    assert!(minimal_text_input().label("y".repeat(45)).build().is_ok());
}

#[test]
fn text_input_max_length_fails_above_its_cap() {
    let built = minimal_text_input().max_length(4001).build();
    assert_eq!(
        built.unwrap_err(),
        CodecError::InvalidFieldRange("max_length", 1, 4000)
    );
}

#[test]
fn text_input_max_length_succeeds_at_boundaries() {
    assert!(minimal_text_input().max_length(1).build().is_ok());
    assert!(minimal_text_input().max_length(4000).build().is_ok());
}

#[test]
fn text_input_max_length_fails_at_zero() {
    let built = minimal_text_input().max_length(0).build();
    assert_eq!(
        built.unwrap_err(),
        CodecError::InvalidFieldRange("max_length", 1, 4000)
    );
}

#[test]
fn text_input_min_length_fails_above_its_cap() {
    let built = minimal_text_input().min_length(4001).build();
    assert_eq!(
        built.unwrap_err(),
        CodecError::InvalidFieldRange("min_length", 0, 4000)
    );
}
