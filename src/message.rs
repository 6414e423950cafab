//! Decoded records, their fields, and validity-checked field extraction.
use vstd::prelude::*;

verus! {

/// The decoded value of one field: a tagged union over the recorder's base types.
/// Non-integer values (text, floating point, arrays) are carried as `Unsupported`.
#[derive(Clone, Copy, Debug, PartialEq, Eq, Structural)]
pub enum FieldValue {
    Enum(u8),
    Sint8(i8),
    Uint8(u8),
    Sint16(i16),
    Uint16(u16),
    Sint32(i32),
    Uint32(u32),
    Uint8z(u8),
    Uint16z(u16),
    Uint32z(u32),
    Byte(u8),
    Sint64(i64),
    Uint64(u64),
    Uint64z(u64),
    Unsupported,
}

/// The variant of a `FieldValue`, without its payload.
#[derive(Clone, Copy, Debug, PartialEq, Eq, Structural)]
pub enum FieldKind {
    Enum,
    Sint8,
    Uint8,
    Sint16,
    Uint16,
    Sint32,
    Uint32,
    Uint8z,
    Uint16z,
    Uint32z,
    Byte,
    Sint64,
    Uint64,
    Uint64z,
    Unsupported,
}

impl FieldValue {
    pub open spec fn kind_spec(self) -> FieldKind {
        match self {
            FieldValue::Enum(_) => FieldKind::Enum,
            FieldValue::Sint8(_) => FieldKind::Sint8,
            FieldValue::Uint8(_) => FieldKind::Uint8,
            FieldValue::Sint16(_) => FieldKind::Sint16,
            FieldValue::Uint16(_) => FieldKind::Uint16,
            FieldValue::Sint32(_) => FieldKind::Sint32,
            FieldValue::Uint32(_) => FieldKind::Uint32,
            FieldValue::Uint8z(_) => FieldKind::Uint8z,
            FieldValue::Uint16z(_) => FieldKind::Uint16z,
            FieldValue::Uint32z(_) => FieldKind::Uint32z,
            FieldValue::Byte(_) => FieldKind::Byte,
            FieldValue::Sint64(_) => FieldKind::Sint64,
            FieldValue::Uint64(_) => FieldKind::Uint64,
            FieldValue::Uint64z(_) => FieldKind::Uint64z,
            FieldValue::Unsupported => FieldKind::Unsupported,
        }
    }

    /// The variant's "invalid / unset" sentinel: all bits set for unsigned and byte
    /// types, the largest value for signed types, zero for the `z` types. An
    /// unsupported value is never usable.
    pub open spec fn is_invalid_spec(self) -> bool {
        match self {
            FieldValue::Enum(v) => v == 0xFF,
            FieldValue::Sint8(v) => v == 0x7F,
            FieldValue::Uint8(v) => v == 0xFF,
            FieldValue::Sint16(v) => v == 0x7FFF,
            FieldValue::Uint16(v) => v == 0xFFFF,
            FieldValue::Sint32(v) => v == 0x7FFF_FFFF,
            FieldValue::Uint32(v) => v == 0xFFFF_FFFF,
            FieldValue::Uint8z(v) => v == 0,
            FieldValue::Uint16z(v) => v == 0,
            FieldValue::Uint32z(v) => v == 0,
            FieldValue::Byte(v) => v == 0xFF,
            FieldValue::Sint64(v) => v == 0x7FFF_FFFF_FFFF_FFFF,
            FieldValue::Uint64(v) => v == 0xFFFF_FFFF_FFFF_FFFF,
            FieldValue::Uint64z(v) => v == 0,
            FieldValue::Unsupported => true,
        }
    }

    pub fn kind(&self) -> (r: FieldKind)
        ensures
            r == self.kind_spec(),
    {
        match self {
            FieldValue::Enum(_) => FieldKind::Enum,
            FieldValue::Sint8(_) => FieldKind::Sint8,
            FieldValue::Uint8(_) => FieldKind::Uint8,
            FieldValue::Sint16(_) => FieldKind::Sint16,
            FieldValue::Uint16(_) => FieldKind::Uint16,
            FieldValue::Sint32(_) => FieldKind::Sint32,
            FieldValue::Uint32(_) => FieldKind::Uint32,
            FieldValue::Uint8z(_) => FieldKind::Uint8z,
            FieldValue::Uint16z(_) => FieldKind::Uint16z,
            FieldValue::Uint32z(_) => FieldKind::Uint32z,
            FieldValue::Byte(_) => FieldKind::Byte,
            FieldValue::Sint64(_) => FieldKind::Sint64,
            FieldValue::Uint64(_) => FieldKind::Uint64,
            FieldValue::Uint64z(_) => FieldKind::Uint64z,
            FieldValue::Unsupported => FieldKind::Unsupported,
        }
    }

    pub fn is_invalid(&self) -> (r: bool)
        ensures
            r == self.is_invalid_spec(),
    {
        match *self {
            FieldValue::Enum(v) => v == 0xFF,
            FieldValue::Sint8(v) => v == 0x7F,
            FieldValue::Uint8(v) => v == 0xFF,
            FieldValue::Sint16(v) => v == 0x7FFF,
            FieldValue::Uint16(v) => v == 0xFFFF,
            FieldValue::Sint32(v) => v == 0x7FFF_FFFF,
            FieldValue::Uint32(v) => v == 0xFFFF_FFFF,
            FieldValue::Uint8z(v) => v == 0,
            FieldValue::Uint16z(v) => v == 0,
            FieldValue::Uint32z(v) => v == 0,
            FieldValue::Byte(v) => v == 0xFF,
            FieldValue::Sint64(v) => v == 0x7FFF_FFFF_FFFF_FFFF,
            FieldValue::Uint64(v) => v == 0xFFFF_FFFF_FFFF_FFFF,
            FieldValue::Uint64z(v) => v == 0,
            FieldValue::Unsupported => true,
        }
    }
}

/// One field of a record: its numeric id, the base-type tag the decoder read, and
/// the decoded value.
#[derive(Clone, Copy, Debug, PartialEq, Eq, Structural)]
pub struct Field {
    pub id: u8,
    pub base_type: u8,
    pub value: FieldValue,
}

/// A field is usable for `(id, kind)` when its id matches, its decoded variant is
/// `kind`, and it does not hold that variant's invalid sentinel.
pub open spec fn usable(f: Field, id: u8, kind: FieldKind) -> bool {
    f.id == id && f.value.kind_spec() == kind && !f.value.is_invalid_spec()
}

/// The value of the last usable field for `(id, kind)`, if any.
pub open spec fn extracted(fields: Seq<Field>, id: u8, kind: FieldKind) -> Option<FieldValue>
    decreases fields.len(),
{
    if fields.len() == 0 {
        None
    } else if usable(fields.last(), id, kind) {
        Some(fields.last().value)
    } else {
        extracted(fields.drop_last(), id, kind)
    }
}

/// The value of `id` if some field carries it with variant `kind` and a valid value;
/// of several such fields, the last one wins.
pub fn extract(fields: &Vec<Field>, id: u8, kind: FieldKind) -> (r: Option<FieldValue>)
    ensures
        r == extracted(fields@, id, kind),
{
    let mut found: Option<FieldValue> = None;
    let mut i: usize = 0;
    while i < fields.len()
        invariant
            i <= fields.len(),
            found == extracted(fields@.subrange(0, i as int), id, kind),
        decreases fields.len() - i,
    {
        let f = fields[i];
        proof {
            assert(fields@.subrange(0, i + 1).drop_last() =~= fields@.subrange(0, i as int));
        }
        if f.id == id && f.value.kind() == kind && !f.value.is_invalid() {
            found = Some(f.value);
        }
        i = i + 1;
    }
    proof {
        assert(fields@.subrange(0, fields.len() as int) =~= fields@);
    }
    found
}

/// What an extracted value says when it is an 8-bit unsigned integer.
pub open spec fn as_u8(v: Option<FieldValue>) -> Option<u8> {
    match v {
        Some(FieldValue::Uint8(x)) => Some(x),
        _ => None,
    }
}

/// What an extracted value says when it is a 32-bit unsigned integer.
pub open spec fn as_u32(v: Option<FieldValue>) -> Option<u32> {
    match v {
        Some(FieldValue::Uint32(x)) => Some(x),
        _ => None,
    }
}

/// The valid 8-bit unsigned value of field `id`, if present.
pub fn extract_u8(fields: &Vec<Field>, id: u8) -> (r: Option<u8>)
    ensures
        r == as_u8(extracted(fields@, id, FieldKind::Uint8)),
{
    match extract(fields, id, FieldKind::Uint8) {
        Some(FieldValue::Uint8(x)) => Some(x),
        _ => None,
    }
}

/// The valid 32-bit unsigned value of field `id`, if present.
pub fn extract_u32(fields: &Vec<Field>, id: u8) -> (r: Option<u32>)
    ensures
        r == as_u32(extracted(fields@, id, FieldKind::Uint32)),
{
    match extract(fields, id, FieldKind::Uint32) {
        Some(FieldValue::Uint32(x)) => Some(x),
        _ => None,
    }
}

/// The closed set of message kinds this pipeline distinguishes.
#[derive(Clone, Copy, Debug, PartialEq, Eq, Structural)]
pub enum MessageKind {
    FileId,
    Record,
    Lap,
    Activity,
    Event,
    Session,
    DeviceInfo,
    FileCreator,
    DeviceSettings,
    UserProfile,
    Sport,
    ZonesTarget,
    Other,
}

/// A decoded record. A normal record carries its kind (when the decoder could
/// resolve one) and its fields; a compressed-time record carries only its kind.
#[derive(Debug)]
pub enum Record {
    Normal { kind: Option<MessageKind>, fields: Vec<Field> },
    CompressedTime { kind: Option<MessageKind> },
}

} // verus!
