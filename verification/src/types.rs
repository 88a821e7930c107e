//! Core types shared by the command, interaction, and response modules.

use vstd::prelude::*;

use crate::errors::CodecError;
use crate::wire::{shape_name, WireModel, WireValue};

verus! {

/// A unique identifier, as the platform's 64-bit unsigned integer.
pub type Snowflake = u64;

/// The kind of a registrable command, selected on the wire by a small
/// integer discriminant.
#[derive(Debug, Clone, Copy, PartialEq, Eq, Structural)]
pub enum CommandKind {
    /// A command invoked through chat input.
    ChatInput,
    /// A command attached to a user.
    User,
    /// A command attached to a message.
    Message,
    /// A command serving as the primary entry point.
    PrimaryEntryPoint,
}

impl CommandKind {
    /// The wire discriminant of this command kind.
    pub open spec fn spec_wire(self) -> u8 {
        match self {
            CommandKind::ChatInput => 1,
            CommandKind::User => 2,
            CommandKind::Message => 3,
            CommandKind::PrimaryEntryPoint => 4,
        }
    }

    /// The command kind a wire discriminant selects, when it is recognized.
    pub open spec fn spec_from_wire(value: u64) -> Option<CommandKind> {
        if value == 1 {
            Some(CommandKind::ChatInput)
        } else if value == 2 {
            Some(CommandKind::User)
        } else if value == 3 {
            Some(CommandKind::Message)
        } else if value == 4 {
            Some(CommandKind::PrimaryEntryPoint)
        } else {
            None
        }
    }

    /// Returns the wire discriminant of this command kind.
    pub fn wire(&self) -> (r: u8)
        ensures
            r == self.spec_wire(),
    {
        match self {
            CommandKind::ChatInput => 1,
            CommandKind::User => 2,
            CommandKind::Message => 3,
            CommandKind::PrimaryEntryPoint => 4,
        }
    }

    /// The command kind a wire discriminant selects, when it is recognized.
    pub fn from_wire(value: u8) -> (r: Option<CommandKind>)
        ensures
            r == CommandKind::spec_from_wire(value as u64),
            r is Some <==> 1 <= value <= 4,
            r matches Some(k) ==> k.spec_wire() == value,
    {
        match value {
            1 => Some(CommandKind::ChatInput),
            2 => Some(CommandKind::User),
            3 => Some(CommandKind::Message),
            4 => Some(CommandKind::PrimaryEntryPoint),
            _ => None,
        }
    }
}

/// The kind of a command option, selected on the wire by a small integer
/// discriminant.
#[derive(Debug, Clone, Copy, PartialEq, Eq, Structural)]
pub enum CommandOptionKind {
    /// A sub-command.
    SubCommand,
    /// A group of sub-commands.
    SubCommandGroup,
    /// A string input.
    String,
    /// An integer input.
    Integer,
    /// A boolean input.
    Boolean,
    /// A user mention.
    User,
    /// A channel mention.
    Channel,
    /// A role mention.
    Role,
    /// A mentionable entity.
    Mentionable,
    /// A floating-point number input.
    Number,
    /// A file attachment.
    Attachment,
}

impl CommandOptionKind {
    /// The wire discriminant of this option kind.
    pub open spec fn spec_wire(self) -> u8 {
        match self {
            CommandOptionKind::SubCommand => 1,
            CommandOptionKind::SubCommandGroup => 2,
            CommandOptionKind::String => 3,
            CommandOptionKind::Integer => 4,
            CommandOptionKind::Boolean => 5,
            CommandOptionKind::User => 6,
            CommandOptionKind::Channel => 7,
            CommandOptionKind::Role => 8,
            CommandOptionKind::Mentionable => 9,
            CommandOptionKind::Number => 10,
            CommandOptionKind::Attachment => 11,
        }
    }

    /// The option kind a wire discriminant selects, when it is recognized.
    pub open spec fn spec_from_wire(value: u64) -> Option<CommandOptionKind> {
        if value == 1 {
            Some(CommandOptionKind::SubCommand)
        } else if value == 2 {
            Some(CommandOptionKind::SubCommandGroup)
        } else if value == 3 {
            Some(CommandOptionKind::String)
        } else if value == 4 {
            Some(CommandOptionKind::Integer)
        } else if value == 5 {
            Some(CommandOptionKind::Boolean)
        } else if value == 6 {
            Some(CommandOptionKind::User)
        } else if value == 7 {
            Some(CommandOptionKind::Channel)
        } else if value == 8 {
            Some(CommandOptionKind::Role)
        } else if value == 9 {
            Some(CommandOptionKind::Mentionable)
        } else if value == 10 {
            Some(CommandOptionKind::Number)
        } else if value == 11 {
            Some(CommandOptionKind::Attachment)
        } else {
            None
        }
    }

    /// Returns the wire discriminant of this option kind.
    pub fn wire(&self) -> (r: u8)
        ensures
            r == self.spec_wire(),
    {
        match self {
            CommandOptionKind::SubCommand => 1,
            CommandOptionKind::SubCommandGroup => 2,
            CommandOptionKind::String => 3,
            CommandOptionKind::Integer => 4,
            CommandOptionKind::Boolean => 5,
            CommandOptionKind::User => 6,
            CommandOptionKind::Channel => 7,
            CommandOptionKind::Role => 8,
            CommandOptionKind::Mentionable => 9,
            CommandOptionKind::Number => 10,
            CommandOptionKind::Attachment => 11,
        }
    }

    /// The option kind a wire discriminant selects, when it is recognized.
    pub fn from_wire(value: u8) -> (r: Option<CommandOptionKind>)
        ensures
            r == CommandOptionKind::spec_from_wire(value as u64),
            r is Some <==> 1 <= value <= 11,
            r matches Some(k) ==> k.spec_wire() == value,
    {
        match value {
            1 => Some(CommandOptionKind::SubCommand),
            2 => Some(CommandOptionKind::SubCommandGroup),
            3 => Some(CommandOptionKind::String),
            4 => Some(CommandOptionKind::Integer),
            5 => Some(CommandOptionKind::Boolean),
            6 => Some(CommandOptionKind::User),
            7 => Some(CommandOptionKind::Channel),
            8 => Some(CommandOptionKind::Role),
            9 => Some(CommandOptionKind::Mentionable),
            10 => Some(CommandOptionKind::Number),
            11 => Some(CommandOptionKind::Attachment),
            _ => None,
        }
    }
}

/// A decoded scalar: a string, a signed integer, a double (carried as its
/// IEEE 754 bit pattern), or a boolean.
#[derive(Debug, PartialEq, Eq)]
pub enum MultiTypeValue {
    /// A string value.
    String(String),
    /// A signed integer value.
    Integer(i64),
    /// A floating-point value, as its IEEE 754 bit pattern.
    Double(u64),
    /// A boolean value.
    Boolean(bool),
}

/// The mathematical model of a decoded scalar.
pub enum MultiTypeValueModel {
    /// A string value.
    String(Seq<char>),
    /// A signed integer value.
    Integer(i64),
    /// A floating-point value, as its IEEE 754 bit pattern.
    Double(u64),
    /// A boolean value.
    Boolean(bool),
}

impl View for MultiTypeValue {
    type V = MultiTypeValueModel;

    open spec fn view(&self) -> MultiTypeValueModel {
        match self {
            MultiTypeValue::String(s) => MultiTypeValueModel::String(s@),
            MultiTypeValue::Integer(i) => MultiTypeValueModel::Integer(*i),
            MultiTypeValue::Double(bits) => MultiTypeValueModel::Double(*bits),
            MultiTypeValue::Boolean(b) => MultiTypeValueModel::Boolean(*b),
        }
    }
}

/// Whether a wire tree is a scalar that a decoded option value accepts:
/// text, boolean, or a number.
pub open spec fn scalar_decodable(m: WireModel) -> bool {
    match m {
        WireModel::Text(_) => true,
        WireModel::Bool(_) => true,
        WireModel::Int(_) => true,
        WireModel::UInt(_) => true,
        WireModel::Float(_) => true,
        _ => false,
    }
}

/// The scalar a decodable wire tree decodes to: an unsigned integer within
/// the signed 64-bit range narrows to `Integer`; one above it widens lossily
/// to `Double`.
pub open spec fn spec_scalar(m: WireModel) -> MultiTypeValueModel
    recommends
        scalar_decodable(m),
{
    match m {
        WireModel::Text(s) => MultiTypeValueModel::String(s),
        WireModel::Bool(b) => MultiTypeValueModel::Boolean(b),
        WireModel::Int(i) => MultiTypeValueModel::Integer(i),
        WireModel::UInt(u) => if u <= i64::MAX {
            MultiTypeValueModel::Integer(u as i64)
        } else {
            MultiTypeValueModel::Double(spec_f64_bits_of_big(u))
        },
        WireModel::Float(bits) => MultiTypeValueModel::Double(bits),
        _ => MultiTypeValueModel::Boolean(false),
    }
}

/// The IEEE 754 bit pattern of the double nearest to `u`, for `u` at least
/// `2^63`: the top 53 bits are kept as the significand and the dropped 11
/// bits are rounded to nearest, ties to even; `2^64` (the upper endpoint of
/// the binade) carries into the next exponent.
pub open spec fn spec_f64_bits_of_big(u: u64) -> u64 {
    let keep = u >> 11;
    let rest = u & 0x7ff;
    let round_up = rest > 0x400 || (rest == 0x400 && keep & 1 == 1);
    let mant = if round_up {
        (keep + 1) as u64
    } else {
        keep
    };
    if mant == 0x20000000000000 {
        0x43f0000000000000
    } else {
        0x43e0000000000000 | (mant & 0xfffffffffffff)
    }
}

/// Computes [`spec_f64_bits_of_big`]: the rounded double bit pattern of an
/// unsigned integer too large for a signed 64-bit value.
fn f64_bits_of_big(u: u64) -> (r: u64)
    requires
        u >= 0x8000000000000000,
    ensures
        r == spec_f64_bits_of_big(u),
{
    let keep = u >> 11;
    let rest = u & 0x7ff;
    proof {
        assert(u >> 11 <= 0x1fffffffffffff) by (bit_vector);
    }
    let round_up = rest > 0x400 || (rest == 0x400 && keep & 1 == 1);
    let mant = if round_up {
        keep + 1
    } else {
        keep
    };
    if mant == 0x20000000000000 {
        0x43f0000000000000
    } else {
        0x43e0000000000000 | (mant & 0xfffffffffffff)
    }
}

impl MultiTypeValue {
    /// Decodes an untyped wire scalar, in priority order: text becomes
    /// `String`, a boolean becomes `Boolean`, an unsigned integer within the
    /// signed 64-bit range becomes `Integer` and one above it widens lossily
    /// to `Double`, a signed integer becomes `Integer`, and a floating-point
    /// number becomes `Double`.  Any other shape is a type mismatch.
    pub fn decode(w: &WireValue) -> (r: Result<MultiTypeValue, CodecError>)
        ensures
            r is Ok <==> scalar_decodable(w@),
            r matches Ok(v) ==> v@ == spec_scalar(w@),
            !scalar_decodable(w@) ==> (r matches Err(CodecError::TypeMismatch(e, a)) && e@
                == "scalar"@ && a@ == crate::wire::spec_shape_name(w@)@),
    {
        match w {
            WireValue::Text(s) => Ok(MultiTypeValue::String(s.clone())),
            WireValue::Bool(b) => Ok(MultiTypeValue::Boolean(*b)),
            WireValue::Int(i) => Ok(MultiTypeValue::Integer(*i)),
            WireValue::UInt(u) => {
                if *u <= 0x7fffffffffffffff {
                    Ok(MultiTypeValue::Integer(*u as i64))
                } else {
                    Ok(MultiTypeValue::Double(f64_bits_of_big(*u)))
                }
            },
            WireValue::Float(bits) => Ok(MultiTypeValue::Double(*bits)),
            _ => Err(CodecError::TypeMismatch("scalar", shape_name(w))),
        }
    }
}

} // verus!
