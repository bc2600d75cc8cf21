//! Values that travel through the engine: decoded variables, frame packets,
//! the requested update rate and the engine's errors.

use std::sync::Arc;
use vstd::prelude::*;
use vstd::string::*;

use super::schema::{RawVariableInfo, VariableLayout, VariableSchema, VariableType};

verus! {

/// One decoded element of a telemetry variable. Floating point elements are
/// carried as their IEEE 754 bit patterns.
#[derive(Debug, Clone, Copy, PartialEq, Eq, Structural)]
pub enum VarValue {
    Char(u8),
    Bool(bool),
    Int(i32),
    BitField(u32),
    /// Bits of a single precision value.
    Float(u32),
    /// Bits of a double precision value.
    Double(u64),
}

/// Why a variable could not be read from a frame.
#[derive(Debug, Clone, Copy, PartialEq, Eq, Structural)]
pub enum DecodeError {
    /// The variable is of another type than the reader declared.
    TypeMismatch { expected: VariableType, actual: VariableType },
    /// The variable does not lie within the frame.
    OutOfBounds { offset: usize, size: usize, available: usize },
}

/// The unsigned number that four little endian bytes at `at` spell.
pub open spec fn le_u32(data: Seq<u8>, at: int) -> u32 {
    (data[at] as int + 256 * (data[at + 1] as int) + 65536 * (data[at + 2] as int) + 16777216 * (
    data[at + 3] as int)) as u32
}

/// The unsigned number that eight little endian bytes at `at` spell.
pub open spec fn le_u64(data: Seq<u8>, at: int) -> u64 {
    (le_u32(data, at) as int + 4294967296 * (le_u32(data, at + 4) as int)) as u64
}

/// The two's complement reading of 32 bits.
pub open spec fn as_signed(x: u32) -> i32 {
    if x < 0x8000_0000 {
        x as i32
    } else {
        (x as int - 0x1_0000_0000) as i32
    }
}

/// The zero value of each type: what a field falls back to when nothing else is declared.
pub open spec fn spec_type_default(t: VariableType) -> VarValue {
    match t {
        VariableType::Char => VarValue::Char(0),
        VariableType::Bool => VarValue::Bool(false),
        VariableType::Int => VarValue::Int(0),
        VariableType::BitField => VarValue::BitField(0),
        VariableType::Float => VarValue::Float(0),
        VariableType::Double => VarValue::Double(0),
    }
}

/// The element of type `t` that starts at `at`.
pub open spec fn value_at(data: Seq<u8>, at: int, t: VariableType) -> VarValue {
    match t {
        VariableType::Char => VarValue::Char(data[at]),
        VariableType::Bool => VarValue::Bool(data[at] != 0),
        VariableType::Int => VarValue::Int(as_signed(le_u32(data, at))),
        VariableType::BitField => VarValue::BitField(le_u32(data, at)),
        VariableType::Float => VarValue::Float(le_u32(data, at)),
        VariableType::Double => VarValue::Double(le_u64(data, at)),
    }
}

/// Reading the first element of the variable `info` as a value of type
/// `expected`: the type has to be the one on the wire and the element has to
/// lie within the frame.
pub open spec fn spec_read_var(data: Seq<u8>, info: VariableLayout, expected: VariableType) -> Result<
    VarValue,
    DecodeError,
> {
    if info.data_type != expected {
        Err(DecodeError::TypeMismatch { expected, actual: info.data_type })
    } else if info.offset + expected.spec_size() > data.len() {
        Err(
            DecodeError::OutOfBounds {
                offset: info.offset as usize,
                size: expected.spec_size() as usize,
                available: data.len() as usize,
            },
        )
    } else {
        Ok(value_at(data, info.offset as int, expected))
    }
}

/// The zero value of a type.
pub fn type_default(t: VariableType) -> (v: VarValue)
    ensures
        v == spec_type_default(t),
{
    match t {
        VariableType::Char => VarValue::Char(0),
        VariableType::Bool => VarValue::Bool(false),
        VariableType::Int => VarValue::Int(0),
        VariableType::BitField => VarValue::BitField(0),
        VariableType::Float => VarValue::Float(0),
        VariableType::Double => VarValue::Double(0),
    }
}

/// Reads four little endian bytes.
pub fn read_u32_le(data: &[u8], at: usize) -> (x: u32)
    requires
        at + 4 <= data@.len(),
    ensures
        x == le_u32(data@, at as int),
{
    let b0: u32 = data[at] as u32;
    let b1: u32 = data[at + 1] as u32;
    let b2: u32 = data[at + 2] as u32;
    let b3: u32 = data[at + 3] as u32;
    b0 + 256 * b1 + 65536 * b2 + 16777216 * b3
}

/// Reads eight little endian bytes.
pub fn read_u64_le(data: &[u8], at: usize) -> (x: u64)
    requires
        at + 8 <= data@.len(),
    ensures
        x == le_u64(data@, at as int),
{
    let len = data.len();
    assert(at + 8 <= len);
    let lo: u64 = read_u32_le(data, at) as u64;
    let hi: u64 = read_u32_le(data, at + 4) as u64;
    lo + 4294967296 * hi
}

/// Reads 32 bits as a signed number.
pub fn to_signed(x: u32) -> (y: i32)
    ensures
        y == as_signed(x),
{
    if x < 0x8000_0000 {
        x as i32
    } else {
        let low: i32 = (x - 0x8000_0000) as i32;
        low + i32::MIN
    }
}

/// Reads the first element of a variable from the bytes of a frame.
pub fn read_var(data: &[u8], info: &RawVariableInfo, expected: VariableType) -> (r: Result<
    VarValue,
    DecodeError,
>)
    ensures
        r == spec_read_var(data@, info@, expected),
{
    if !(info.data_type == expected) {
        return Err(DecodeError::TypeMismatch { expected, actual: info.data_type });
    }
    let size = expected.size();
    if info.offset > data.len() || data.len() - info.offset < size {
        return Err(DecodeError::OutOfBounds { offset: info.offset, size, available: data.len() });
    }
    let at = info.offset;
    Ok(
        match expected {
            VariableType::Char => VarValue::Char(data[at]),
            VariableType::Bool => VarValue::Bool(data[at] != 0),
            VariableType::Int => VarValue::Int(to_signed(read_u32_le(data, at))),
            VariableType::BitField => VarValue::BitField(read_u32_le(data, at)),
            VariableType::Float => VarValue::Float(read_u32_le(data, at)),
            VariableType::Double => VarValue::Double(read_u64_le(data, at)),
        },
    )
}

/// One tick's raw telemetry: created once per source tick and never changed.
#[derive(Debug)]
pub struct FramePacket {
    /// Sample index of the source, growing from packet to packet.
    pub tick: u32,
    /// Version of the session metadata that was current at this tick.
    pub session_version: u32,
    /// The bytes of the frame.
    pub data: Vec<u8>,
    /// The schema that tells what the bytes hold.
    pub schema: Arc<VariableSchema>,
}

impl FramePacket {
    /// The packet of one tick.
    pub fn new(data: Vec<u8>, tick: u32, session_version: u32, schema: Arc<VariableSchema>) -> (r:
        Self)
        ensures
            r.data == data,
            r.tick == tick,
            r.session_version == session_version,
            r.schema == schema,
    {
        FramePacket { tick, session_version, data, schema }
    }
}

/// Rate at which a subscriber wants frames.
#[derive(Debug, Clone, Copy, PartialEq, Eq, Structural)]
pub enum UpdateRate {
    /// Every packet of the source.
    Native,
    /// At most so many packets per second.
    Max(u32),
}

impl UpdateRate {
    /// The rate that is in effect on a source of `source_hz` packets per
    /// second: a cap that the source never reaches, and a cap of zero, leave
    /// the native rate.
    pub open spec fn spec_normalize(self, source_hz: u32) -> UpdateRate {
        match self {
            UpdateRate::Native => UpdateRate::Native,
            UpdateRate::Max(hz) => if hz == 0 || hz >= source_hz {
                UpdateRate::Native
            } else {
                UpdateRate::Max(hz)
            },
        }
    }

    /// The rate that is in effect on a source of `source_hz` packets per second.
    pub fn normalize(&self, source_hz: u32) -> (r: UpdateRate)
        ensures
            r == self.spec_normalize(source_hz),
            r matches UpdateRate::Max(hz) ==> 0 < hz < source_hz,
    {
        match *self {
            UpdateRate::Native => UpdateRate::Native,
            UpdateRate::Max(hz) => if hz == 0 || hz >= source_hz {
                UpdateRate::Native
            } else {
                UpdateRate::Max(hz)
            },
        }
    }
}

/// What can go wrong in the engine.
#[derive(Debug)]
pub enum TelemetryError {
    /// The source could not be opened: its directory is missing or corrupt.
    SourceOpen { details: String },
    /// A live source was asked for where there is none.
    UnsupportedPlatform { feature: String, required_platform: String },
    /// A field that the consumer requires is not in the schema.
    SchemaValidation { field: String, available: Vec<String> },
    /// The source failed to deliver a frame.
    ProviderRead { details: String },
    /// Session metadata was malformed.
    Parse { context: String, details: String },
}

/// The strings of `parts` with `sep` between each two.
pub open spec fn spec_join(parts: Seq<Seq<char>>, sep: Seq<char>) -> Seq<char>
    decreases parts.len(),
{
    if parts.len() == 0 {
        Seq::empty()
    } else if parts.len() == 1 {
        parts[0]
    } else {
        spec_join(parts.drop_last(), sep) + sep + parts.last()
    }
}

/// Joins strings with a separator.
pub fn join(parts: &Vec<String>, sep: &str) -> (r: String)
    ensures
        r@ == spec_join(parts@.map_values(|s: String| s@), sep@),
{
    let ghost views = parts@.map_values(|s: String| s@);
    let mut out = String::new();
    let mut i: usize = 0;
    while i < parts.len()
        invariant
            i <= parts@.len(),
            views == parts@.map_values(|s: String| s@),
            out@ == spec_join(views.take(i as int), sep@),
        decreases parts@.len() - i,
    {
        if i > 0 {
            out.append(sep);
        }
        out.append(parts[i].as_str());
        proof {
            let next = views.take(i + 1);
            assert(next.drop_last() =~= views.take(i as int));
            assert(next.last() == parts@[i as int]@);
            assert(Seq::<char>::empty() + parts@[i as int]@ =~= parts@[i as int]@);
        }
        i += 1;
    }
    assert(views.take(parts@.len() as int) =~= views);
    out
}

/// The text of the message for a required field that the schema lacks.
pub open spec fn missing_field_message(field: Seq<char>, available: Seq<Seq<char>>) -> Seq<char> {
    "Critical field '"@ + field
        + "' is missing from schema. Connection aborted. Available fields: "@ + spec_join(
        available,
        ", "@,
    )
}

impl TelemetryError {
    /// The error for a feature that only another platform offers.
    pub fn unsupported_platform(feature: &str, required_platform: &str) -> (r: Self)
        ensures
            r matches TelemetryError::UnsupportedPlatform { feature: f, required_platform: p }
                && f@ == feature@ && p@ == required_platform@,
    {
        TelemetryError::UnsupportedPlatform {
            feature: feature.to_owned(),
            required_platform: required_platform.to_owned(),
        }
    }

    /// The text of the error.
    pub open spec fn spec_message(&self) -> Seq<char> {
        match self {
            TelemetryError::SourceOpen { details } => "Failed to open telemetry source: "@
                + details@,
            TelemetryError::UnsupportedPlatform { feature, required_platform } => feature@
                + " is only available on "@ + required_platform@,
            TelemetryError::SchemaValidation { field, available } => missing_field_message(
                field@,
                available@.map_values(|s: String| s@),
            ),
            TelemetryError::ProviderRead { details } => "Failed to read from telemetry source: "@
                + details@,
            TelemetryError::Parse { context, details } => "Parse error in "@ + context@ + ": "@
                + details@,
        }
    }

    /// The text of the error.
    pub fn message(&self) -> (r: String)
        ensures
            r@ == self.spec_message(),
    {
        match self {
            TelemetryError::SourceOpen { details } => {
                let mut m = String::from_str("Failed to open telemetry source: ");
                m.append(details.as_str());
                m
            },
            TelemetryError::UnsupportedPlatform { feature, required_platform } => {
                let mut m = feature.clone();
                m.append(" is only available on ");
                m.append(required_platform.as_str());
                m
            },
            TelemetryError::SchemaValidation { field, available } => {
                let mut m = String::from_str("Critical field '");
                m.append(field.as_str());
                m.append("' is missing from schema. Connection aborted. Available fields: ");
                let joined = join(available, ", ");
                m.append(joined.as_str());
                m
            },
            TelemetryError::ProviderRead { details } => {
                let mut m = String::from_str("Failed to read from telemetry source: ");
                m.append(details.as_str());
                m
            },
            TelemetryError::Parse { context, details } => {
                let mut m = String::from_str("Parse error in ");
                m.append(context.as_str());
                m.append(": ");
                m.append(details.as_str());
                m
            },
        }
    }
}

} // verus!
