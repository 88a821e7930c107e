//! Tests of the decode path: scalar coercion, the option-node tree, the
//! invocation top, and the interaction envelope.

use interaction_codec::errors::CodecError;
use interaction_codec::interaction::{CommandData, CommandInteractionData, Interaction};
use interaction_codec::types::{CommandKind, CommandOptionKind, MultiTypeValue};
use interaction_codec::wire::{WireField, WireValue};

fn field(key: &str, value: WireValue) -> WireField {
    WireField {
        key: key.to_string(),
        value,
    }
}

fn obj(fields: Vec<WireField>) -> WireValue {
    WireValue::Object(fields)
}

fn node(name: &str, kind: u64) -> Vec<WireField> {
    vec![
        field("name", WireValue::Text(name.to_string())),
        field("type", WireValue::UInt(kind)),
    ]
}

#[test]
fn scalar_decode_follows_priority_order() {
    assert_eq!(
        MultiTypeValue::decode(&WireValue::Text("hi".to_string())),
        Ok(MultiTypeValue::String("hi".to_string()))
    );
    assert_eq!(
        MultiTypeValue::decode(&WireValue::Bool(true)),
        Ok(MultiTypeValue::Boolean(true))
    );
    assert_eq!(
        MultiTypeValue::decode(&WireValue::Int(-9)),
        Ok(MultiTypeValue::Integer(-9))
    );
    assert_eq!(
        MultiTypeValue::decode(&WireValue::UInt(9)),
        Ok(MultiTypeValue::Integer(9))
    );
    let bits = 2.5f64.to_bits();
    assert_eq!(
        MultiTypeValue::decode(&WireValue::Float(bits)),
        Ok(MultiTypeValue::Double(bits))
    );
}

#[test]
fn scalar_decode_rejects_composites_and_null() {
    assert_eq!(
        MultiTypeValue::decode(&WireValue::Array(vec![])),
        Err(CodecError::TypeMismatch("scalar", "array"))
    );
    assert_eq!(
        MultiTypeValue::decode(&obj(vec![])),
        Err(CodecError::TypeMismatch("scalar", "object"))
    );
    assert_eq!(
        MultiTypeValue::decode(&WireValue::Null),
        Err(CodecError::TypeMismatch("scalar", "null"))
    );
}

#[test]
fn unsigned_at_signed_max_stays_integer() {
    let just_fits = (1u64 << 63) - 1;
    assert_eq!(
        MultiTypeValue::decode(&WireValue::UInt(just_fits)),
        Ok(MultiTypeValue::Integer(i64::MAX))
    );
}

#[test]
fn unsigned_above_signed_max_widens_to_double() {
    let too_big = 1u64 << 63;
    match MultiTypeValue::decode(&WireValue::UInt(too_big)).unwrap() {
        MultiTypeValue::Double(bits) => {
            assert_eq!(bits, (too_big as f64).to_bits());
            assert_eq!(f64::from_bits(bits), 9223372036854775808.0);
        }
        other => panic!("expected a double, got {other:?}"),
    }
}

#[test]
fn unsigned_widening_rounds_to_nearest_even() {
    for value in [
        u64::MAX,
        (1u64 << 63) + 1,
        (1u64 << 63) + 0x400,
        (1u64 << 63) + 0xC00,
        0xDEAD_BEEF_DEAD_BEEF,
    ] {
        match MultiTypeValue::decode(&WireValue::UInt(value)).unwrap() {
            MultiTypeValue::Double(bits) => {
                assert_eq!(bits, (value as f64).to_bits(), "for {value}");
            }
            other => panic!("expected a double, got {other:?}"),
        }
    }
}

#[test]
fn tree_decode_reads_all_fields() {
    let mut fields = node("msg", 3);
    fields.push(field("value", WireValue::Text("hello".to_string())));
    fields.push(field("focused", WireValue::Bool(true)));
    let data = CommandInteractionData::decode(&obj(fields)).unwrap();
    assert_eq!(data.name(), "msg");
    assert!(matches!(data.kind(), CommandOptionKind::String));
    assert_eq!(
        data.value(),
        &Some(MultiTypeValue::String("hello".to_string()))
    );
    assert!(data.options().is_none());
    assert_eq!(data.focused(), &Some(true));
}

#[test]
fn tree_decode_requires_name_and_type() {
    let no_name = obj(vec![field("type", WireValue::UInt(3))]);
    assert_eq!(
        CommandInteractionData::decode(&no_name).unwrap_err(),
        CodecError::MissingRequiredField("name")
    );

    let no_type = obj(vec![field("name", WireValue::Text("msg".to_string()))]);
    assert_eq!(
        CommandInteractionData::decode(&no_type).unwrap_err(),
        CodecError::MissingRequiredField("type")
    );
}

#[test]
fn tree_decode_rejects_unknown_option_kind() {
    let fields = node("msg", 12);
    assert_eq!(
        CommandInteractionData::decode(&obj(fields)).unwrap_err(),
        CodecError::UnknownDiscriminant(12)
    );
}

#[test]
fn tree_decode_treats_null_optionals_as_absent() {
    let mut fields = node("msg", 3);
    fields.push(field("value", WireValue::Null));
    fields.push(field("options", WireValue::Null));
    fields.push(field("focused", WireValue::Null));
    let data = CommandInteractionData::decode(&obj(fields)).unwrap();
    assert_eq!(data.value(), &None);
    assert!(data.options().is_none());
    assert_eq!(data.focused(), &None);
}

#[test]
fn tree_decode_recurses_into_options() {
    let child = obj({
        let mut fields = node("depth", 4);
        fields.push(field("value", WireValue::UInt(3)));
        fields
    });
    let mut fields = node("scan", 1);
    fields.push(field("options", WireValue::Array(vec![child])));
    let data = CommandInteractionData::decode(&obj(fields)).unwrap();
    let inner = data.option("depth").expect("child should be found");
    assert_eq!(inner.value(), &Some(MultiTypeValue::Integer(3)));
    assert!(data.option("missing").is_none());
}

#[test]
fn option_returns_first_of_duplicate_names() {
    let first = obj({
        let mut fields = node("twin", 4);
        fields.push(field("value", WireValue::UInt(1)));
        fields
    });
    let second = obj({
        let mut fields = node("twin", 4);
        fields.push(field("value", WireValue::UInt(2)));
        fields
    });
    let mut fields = node("scan", 1);
    fields.push(field("options", WireValue::Array(vec![first, second])));
    let data = CommandInteractionData::decode(&obj(fields)).unwrap();
    let found = data.option("twin").expect("a twin should be found");
    assert_eq!(found.value(), &Some(MultiTypeValue::Integer(1)));
}

fn command_payload() -> Vec<WireField> {
    vec![
        field("id", WireValue::UInt(42)),
        field("name", WireValue::Text("ping".to_string())),
        field("type", WireValue::UInt(1)),
    ]
}

#[test]
fn command_data_decode_reads_all_fields() {
    let mut fields = command_payload();
    fields.push(field("guild_id", WireValue::UInt(7)));
    fields.push(field("target_id", WireValue::Null));
    let data = CommandData::decode(&obj(fields)).unwrap();
    assert_eq!(data.id(), &42);
    assert_eq!(data.name(), "ping");
    assert!(matches!(data.kind(), CommandKind::ChatInput));
    assert_eq!(data.guild_id(), &Some(7));
    assert_eq!(data.target_id(), &None);
    assert!(data.option("anything").is_none());
}

#[test]
fn command_data_option_lookup_finds_first_match() {
    let mut fields = command_payload();
    fields.push(field(
        "options",
        WireValue::Array(vec![obj(node("msg", 3)), obj(node("count", 4))]),
    ));
    let data = CommandData::decode(&obj(fields)).unwrap();
    assert_eq!(data.option("count").unwrap().name(), "count");
    assert!(data.option("other").is_none());
}

#[test]
fn envelope_decodes_every_recognized_discriminant() {
    let ping = obj(vec![field("type", WireValue::UInt(1))]);
    assert!(matches!(
        Interaction::decode(&ping).unwrap(),
        Interaction::Ping
    ));

    let component = obj(vec![field("type", WireValue::UInt(3))]);
    assert!(matches!(
        Interaction::decode(&component).unwrap(),
        Interaction::MessageComponent
    ));

    let autocomplete = obj(vec![field("type", WireValue::UInt(4))]);
    assert!(matches!(
        Interaction::decode(&autocomplete).unwrap(),
        Interaction::CommandAutocomplete
    ));

    let modal = obj(vec![field("type", WireValue::UInt(5))]);
    assert!(matches!(
        Interaction::decode(&modal).unwrap(),
        Interaction::ModalSumbit
    ));
}

#[test]
fn envelope_with_command_payload_decodes_it() {
    let envelope = obj(vec![
        field("type", WireValue::UInt(2)),
        field("data", obj(command_payload())),
    ]);
    match Interaction::decode(&envelope).unwrap() {
        Interaction::Command(data) => {
            assert_eq!(data.name(), "ping");
            assert_eq!(data.id(), &42);
        }
        other => panic!("expected a command, got {other:?}"),
    }
}

#[test]
fn envelope_discriminant_two_without_data_is_missing_payload() {
    let envelope = obj(vec![field("type", WireValue::UInt(2))]);
    assert!(matches!(
        Interaction::decode(&envelope).unwrap_err(),
        CodecError::PayloadMissingForVariant(2)
    ));

    let null_data = obj(vec![
        field("type", WireValue::UInt(2)),
        field("data", WireValue::Null),
    ]);
    assert!(matches!(
        Interaction::decode(&null_data).unwrap_err(),
        CodecError::PayloadMissingForVariant(2)
    ));
}

#[test]
fn envelope_discriminant_six_is_unknown() {
    let envelope = obj(vec![field("type", WireValue::UInt(6))]);
    assert!(matches!(
        Interaction::decode(&envelope).unwrap_err(),
        CodecError::UnknownDiscriminant(6)
    ));
}

#[test]
fn envelope_malformed_payload_is_distinguished() {
    let envelope = obj(vec![
        field("type", WireValue::UInt(2)),
        field("data", obj(vec![field("id", WireValue::UInt(1))])),
    ]);
    match Interaction::decode(&envelope).unwrap_err() {
        CodecError::PayloadMalformed(inner) => {
            assert_eq!(*inner, CodecError::MissingRequiredField("name"));
        }
        other => panic!("expected a malformed payload, got {other:?}"),
    }
}

#[test]
fn envelope_requires_type_field() {
    assert_eq!(
        Interaction::decode(&obj(vec![])).unwrap_err(),
        CodecError::MissingRequiredField("type")
    );
    assert_eq!(
        Interaction::decode(&WireValue::Array(vec![])).unwrap_err(),
        CodecError::TypeMismatch("object", "array")
    );
}
