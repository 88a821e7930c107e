//! End-to-end scenarios: registering a command and reading back a platform
//! response about the same command.

use interaction_codec::interaction::{CommandData, InteractionData};
use interaction_codec::register::encode_commands;
use interaction_codec::register::{ChoiceValue, CommandBuilder, CommandOptionBuilder};
use interaction_codec::types::{CommandKind, CommandOptionKind};
use interaction_codec::wire::{WireField, WireValue};

fn field(key: &str, value: WireValue) -> WireField {
    WireField {
        key: key.to_string(),
        value,
    }
}

#[test]
fn ping_command_with_string_option_encodes_exactly() {
    let option = CommandOptionBuilder::new()
        .kind(CommandOptionKind::String)
        .name("msg".to_string())
        .description("message to echo".to_string())
        .required(true)
        .min_length(ChoiceValue::Int(0))
        .max_length(ChoiceValue::Int(100))
        .build()
        .unwrap();
    let command = CommandBuilder::new()
        .name("ping".to_string())
        .kind(CommandKind::ChatInput)
        .option(option)
        .build()
        .unwrap();
    let wire = command.encode().unwrap();

    let expected_option = WireValue::Object(vec![
        field("type", WireValue::UInt(3)),
        field("name", WireValue::Text("msg".to_string())),
        field("description", WireValue::Text("message to echo".to_string())),
        field("required", WireValue::Bool(true)),
        field("min_length", WireValue::Int(0)),
        field("max_length", WireValue::Int(100)),
    ]);
    let expected = WireValue::Object(vec![
        field("name", WireValue::Text("ping".to_string())),
        field("type", WireValue::UInt(1)),
        field("description", WireValue::Text(String::new())),
        field("options", WireValue::Array(vec![expected_option])),
    ]);
    assert_eq!(wire, expected);

    // Presence and absence, independent of field order.
    assert!(wire.get("name").is_some());
    assert!(wire.get("type").is_some());
    assert!(wire.get("description").is_some());
    match wire.get("options") {
        Some(WireValue::Array(items)) => {
            assert_eq!(items.len(), 1);
            for absent in ["choices", "options", "min_value", "max_value", "autocomplete"] {
                assert_eq!(items[0].get(absent), None, "{absent} should be omitted");
            }
        }
        other => panic!("options should be an array, got {other:?}"),
    }
}

#[test]
fn registration_and_response_shapes_agree_only_on_name_and_kind() {
    let command = CommandBuilder::new()
        .name("ping".to_string())
        .kind(CommandKind::ChatInput)
        .build()
        .unwrap();
    let encoded = command.encode().unwrap();

    // A platform response about the registered command carries extra
    // fields; the decoded shape is a different type than the builder's.
    let response = WireValue::Object(vec![
        field("id", WireValue::UInt(99)),
        field("name", WireValue::Text("ping".to_string())),
        field("type", WireValue::UInt(1)),
    ]);
    let decoded = CommandData::decode(&response).unwrap();

    // Compare against the fixed discriminant table, not across the types.
    assert_eq!(
        encoded.get("name"),
        Some(&WireValue::Text(decoded.name().to_string()))
    );
    assert_eq!(encoded.get("type"), Some(&WireValue::UInt(1)));
    assert!(matches!(decoded.kind(), CommandKind::ChatInput));

    // The shapes differ beyond name and kind: the response carries an
    // identifier the registration payload never holds.
    assert_eq!(encoded.get("id"), None);
    assert_eq!(decoded.id(), &99);
}

#[test]
fn command_list_encodes_as_an_array_in_order() {
    let first = CommandBuilder::new()
        .name("ping".to_string())
        .kind(CommandKind::ChatInput)
        .build()
        .unwrap();
    let second = CommandBuilder::new()
        .name("profile".to_string())
        .kind(CommandKind::User)
        .build()
        .unwrap();
    let wire = encode_commands(&vec![first, second]).unwrap();
    match wire {
        WireValue::Array(items) => {
            assert_eq!(items.len(), 2);
            assert_eq!(
                items[0].get("name"),
                Some(&WireValue::Text("ping".to_string()))
            );
            assert_eq!(items[0].get("type"), Some(&WireValue::UInt(1)));
            assert_eq!(
                items[1].get("name"),
                Some(&WireValue::Text("profile".to_string()))
            );
            assert_eq!(items[1].get("type"), Some(&WireValue::UInt(2)));
        }
        other => panic!("expected an array, got {other:?}"),
    }
}

#[test]
fn interaction_data_decodes_a_command_tree() {
    let tree = WireValue::Object(vec![
        field("name", WireValue::Text("msg".to_string())),
        field("type", WireValue::UInt(3)),
    ]);
    match InteractionData::decode(&tree).unwrap() {
        InteractionData::CommandInteraction(data) => {
            assert_eq!(data.name(), "msg");
            assert!(matches!(data.kind(), CommandOptionKind::String));
        }
        other => panic!("expected command interaction data, got {other:?}"),
    }
}
