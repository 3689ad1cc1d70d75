use vstd::prelude::*;
use crate::tables::{
    action_code, decode_action, decode_instrument, decode_operator, decode_parameter, decode_prefix,
    decode_register, instrument_code, operator_code, parameter_code, prefix_code, register_code,
};
use crate::error::ErrorKind;
use crate::text::{decimal_in, parse_i8, same_text, trim_spec, trim_text};
use crate::word::{pack4x8to32, pack_spec};

verus! {

/// The operations of the machine; each takes the highest byte of an instruction word.
#[derive(Clone, Copy, Debug, PartialEq, Eq, Structural)]
pub enum Opcode {
    Nop,
    Mov,
    Lea,
    Cmp,
    SetParam,
    GetParam,
    Act,
    Hlt,
    Str,
    Fma,
    Fsd,
    Sin,
    Cos,
    Tan,
    Pow,
    Nor,
}

/// The byte of `op` in an instruction word.
pub open spec fn opcode_code(op: Opcode) -> i8 {
    match op {
        Opcode::Nop => 0x00,
        Opcode::Mov => 0x01,
        Opcode::Lea => 0x02,
        Opcode::Cmp => 0x03,
        Opcode::SetParam => 0x04,
        Opcode::GetParam => 0x05,
        Opcode::Act => 0x06,
        Opcode::Hlt => 0x07,
        Opcode::Str => 0x08,
        Opcode::Fma => 0x09,
        Opcode::Fsd => 0x0A,
        Opcode::Sin => 0x0B,
        Opcode::Cos => 0x0C,
        Opcode::Tan => 0x0D,
        Opcode::Pow => 0x0E,
        Opcode::Nor => 0x0F,
    }
}

/// The opcode named by the mnemonic `m`.
pub open spec fn opcode_of(m: Seq<char>) -> Option<Opcode> {
    if m == "OP_NOP"@ {
        Some(Opcode::Nop)
    } else if m == "OP_MOV"@ {
        Some(Opcode::Mov)
    } else if m == "OP_LEA"@ {
        Some(Opcode::Lea)
    } else if m == "OP_CMP"@ {
        Some(Opcode::Cmp)
    } else if m == "OP_SET"@ {
        Some(Opcode::SetParam)
    } else if m == "OP_GET"@ {
        Some(Opcode::GetParam)
    } else if m == "OP_ACT"@ {
        Some(Opcode::Act)
    } else if m == "OP_HLT"@ {
        Some(Opcode::Hlt)
    } else if m == "OP_STR"@ {
        Some(Opcode::Str)
    } else if m == "OP_FMA"@ {
        Some(Opcode::Fma)
    } else if m == "OP_FSD"@ {
        Some(Opcode::Fsd)
    } else if m == "OP_SIN"@ {
        Some(Opcode::Sin)
    } else if m == "OP_COS"@ {
        Some(Opcode::Cos)
    } else if m == "OP_TAN"@ {
        Some(Opcode::Tan)
    } else if m == "OP_POW"@ {
        Some(Opcode::Pow)
    } else if m == "OP_NOR"@ {
        Some(Opcode::Nor)
    } else {
        None
    }
}

impl Opcode {
    /// The byte of this opcode in an instruction word.
    pub fn code(&self) -> (r: i8)
        ensures
            r == opcode_code(*self),
    {
        match self {
            Opcode::Nop => 0x00,
            Opcode::Mov => 0x01,
            Opcode::Lea => 0x02,
            Opcode::Cmp => 0x03,
            Opcode::SetParam => 0x04,
            Opcode::GetParam => 0x05,
            Opcode::Act => 0x06,
            Opcode::Hlt => 0x07,
            Opcode::Str => 0x08,
            Opcode::Fma => 0x09,
            Opcode::Fsd => 0x0A,
            Opcode::Sin => 0x0B,
            Opcode::Cos => 0x0C,
            Opcode::Tan => 0x0D,
            Opcode::Pow => 0x0E,
            Opcode::Nor => 0x0F,
        }
    }
}

/// The opcode named by the mnemonic `m`, or `None` where there is no such opcode.
pub fn decode_opcode(m: &str) -> (r: Option<Opcode>)
    ensures
        r == opcode_of(m@),
{
    if same_text(m, "OP_NOP") {
        Some(Opcode::Nop)
    } else if same_text(m, "OP_MOV") {
        Some(Opcode::Mov)
    } else if same_text(m, "OP_LEA") {
        Some(Opcode::Lea)
    } else if same_text(m, "OP_CMP") {
        Some(Opcode::Cmp)
    } else if same_text(m, "OP_SET") {
        Some(Opcode::SetParam)
    } else if same_text(m, "OP_GET") {
        Some(Opcode::GetParam)
    } else if same_text(m, "OP_ACT") {
        Some(Opcode::Act)
    } else if same_text(m, "OP_HLT") {
        Some(Opcode::Hlt)
    } else if same_text(m, "OP_STR") {
        Some(Opcode::Str)
    } else if same_text(m, "OP_FMA") {
        Some(Opcode::Fma)
    } else if same_text(m, "OP_FSD") {
        Some(Opcode::Fsd)
    } else if same_text(m, "OP_SIN") {
        Some(Opcode::Sin)
    } else if same_text(m, "OP_COS") {
        Some(Opcode::Cos)
    } else if same_text(m, "OP_TAN") {
        Some(Opcode::Tan)
    } else if same_text(m, "OP_POW") {
        Some(Opcode::Pow)
    } else if same_text(m, "OP_NOR") {
        Some(Opcode::Nor)
    } else {
        None
    }
}

/// What an operand byte holds, and so the table it is resolved through.
#[derive(Clone, Copy, Debug, PartialEq, Eq, Structural)]
pub enum Field {
    Register,
    Address,
    Prefix,
    Operator,
    Instrument,
    Parameter,
    Action,
}

/// Where an operand byte comes from: a constant, or the field at a position of the line.
#[derive(Clone, Copy, Debug, PartialEq, Eq, Structural)]
pub enum Slot {
    Fixed(i8),
    Read(Field, usize),
}

/// The byte that the text `t` stands for as a field of kind `kind`.
pub open spec fn field_value(kind: Field, t: Seq<char>) -> Result<i8, ErrorKind> {
    let code = match kind {
        Field::Register => register_code(t),
        Field::Prefix => prefix_code(t),
        Field::Operator => operator_code(t),
        Field::Instrument => instrument_code(t),
        Field::Parameter => parameter_code(t),
        Field::Action => action_code(t),
        Field::Address => match decimal_in(t, -128, 127) {
            Some(v) => Some(v as i8),
            None => None,
        },
    };
    match code {
        Some(c) => Ok(c),
        None => if kind == Field::Address {
            Err(ErrorKind::MalformedLiteral)
        } else {
            Err(ErrorKind::UnknownMnemonic)
        },
    }
}

/// Where the first operand byte of `op` comes from.
pub open spec fn first_slot(op: Opcode) -> Slot {
    match op {
        Opcode::Nop | Opcode::Hlt => Slot::Fixed(0),
        Opcode::Mov | Opcode::Str | Opcode::Sin | Opcode::Cos | Opcode::Tan | Opcode::Pow =>
            Slot::Read(Field::Prefix, 1),
        Opcode::Lea | Opcode::Fma | Opcode::Fsd | Opcode::Nor => Slot::Read(Field::Register, 1),
        Opcode::Cmp => Slot::Read(Field::Operator, 1),
        Opcode::SetParam | Opcode::GetParam | Opcode::Act => Slot::Read(Field::Instrument, 1),
    }
}

/// Where the second and third operand bytes of `op` come from, once the first is `a`.
pub open spec fn later_slots(op: Opcode, a: i8) -> (Slot, Slot) {
    match op {
        Opcode::Nop | Opcode::Hlt => (Slot::Fixed(0), Slot::Fixed(0)),
        Opcode::Lea => (Slot::Read(Field::Address, 2), Slot::Read(Field::Address, 3)),
        Opcode::Mov => (
            Slot::Read(Field::Register, 2),
            if a == 0x01 {
                Slot::Read(Field::Register, 3)
            } else if a == 0x02 {
                Slot::Read(Field::Address, 3)
            } else {
                Slot::Fixed(0)
            },
        ),
        Opcode::Cmp => (
            if a == 0x0D || a == 0x0E {
                Slot::Read(Field::Address, 2)
            } else {
                Slot::Read(Field::Register, 2)
            },
            Slot::Read(Field::Register, 3),
        ),
        Opcode::SetParam | Opcode::GetParam => (Slot::Read(Field::Parameter, 2), Slot::Read(Field::Register, 3)),
        Opcode::Act => (Slot::Read(Field::Action, 2), Slot::Read(Field::Register, 3)),
        Opcode::Str => (Slot::Fixed(0), Slot::Read(Field::Register, 2)),
        Opcode::Fma | Opcode::Fsd | Opcode::Nor | Opcode::Sin | Opcode::Cos | Opcode::Tan | Opcode::Pow =>
            (Slot::Read(Field::Register, 2), Slot::Read(Field::Register, 3)),
    }
}

/// The byte that slot `s` yields on the fields `fs` of a line; each field is trimmed first.
pub open spec fn slot_value(s: Slot, fs: Seq<Seq<char>>) -> Result<i8, ErrorKind> {
    match s {
        Slot::Fixed(c) => Ok(c),
        Slot::Read(kind, k) => if k < fs.len() {
            field_value(kind, trim_spec(fs[k as int]))
        } else {
            Err(ErrorKind::OperandCountMismatch)
        },
    }
}

/// The word for the instruction line whose comma-separated fields are `fs`: the opcode
/// mnemonic first, then its operands. Operands are resolved in order and the first failure
/// is the result; a field that the layout reads but the line lacks is `OperandCountMismatch`.
/// Fields that the layout does not read (the third of a `MOV` with the indirect prefix, or
/// any beyond the layout) need not be there.
pub open spec fn encode_spec(fs: Seq<Seq<char>>) -> Result<u32, ErrorKind> {
    let name = if fs.len() > 0 { trim_spec(fs[0]) } else { Seq::<char>::empty() };
    match opcode_of(name) {
        None => Err(ErrorKind::UnknownMnemonic),
        Some(op) => match slot_value(first_slot(op), fs) {
            Err(e) => Err(e),
            Ok(a) => match slot_value(later_slots(op, a).0, fs) {
                Err(e) => Err(e),
                Ok(b) => match slot_value(later_slots(op, a).1, fs) {
                    Err(e) => Err(e),
                    Ok(c) => Ok(pack_spec(opcode_code(op), a, b, c) as u32),
                },
            },
        },
    }
}

/// The views of the texts in `v`.
pub open spec fn texts_view(v: Seq<&str>) -> Seq<Seq<char>> {
    v.map_values(|t: &str| t@)
}

/// The address written in decimal in `t`, a signed byte.
pub fn decode_address(t: &str) -> (r: Option<i8>)
    ensures
        r matches Some(v) ==> decimal_in(t@, -128, 127) == Some(v as int),
        r is None ==> decimal_in(t@, -128, 127) is None,
{
    parse_i8(t)
}

/// The byte that the text `t` stands for as a field of kind `kind`.
pub fn resolve_field(kind: Field, t: &str) -> (r: Result<i8, ErrorKind>)
    ensures
        r == field_value(kind, t@),
{
    let code = match kind {
        Field::Register => decode_register(t),
        Field::Prefix => decode_prefix(t),
        Field::Operator => decode_operator(t),
        Field::Instrument => decode_instrument(t),
        Field::Parameter => decode_parameter(t),
        Field::Action => decode_action(t),
        Field::Address => decode_address(t),
    };
    match code {
        Some(c) => Ok(c),
        None => match kind {
            Field::Address => Err(ErrorKind::MalformedLiteral),
            _ => Err(ErrorKind::UnknownMnemonic),
        },
    }
}

impl Opcode {
    /// Where the first operand byte of this opcode comes from.
    pub fn first_slot(&self) -> (r: Slot)
        ensures
            r == first_slot(*self),
    {
        match self {
            Opcode::Nop | Opcode::Hlt => Slot::Fixed(0),
            Opcode::Mov | Opcode::Str | Opcode::Sin | Opcode::Cos | Opcode::Tan | Opcode::Pow =>
                Slot::Read(Field::Prefix, 1),
            Opcode::Lea | Opcode::Fma | Opcode::Fsd | Opcode::Nor => Slot::Read(Field::Register, 1),
            Opcode::Cmp => Slot::Read(Field::Operator, 1),
            Opcode::SetParam | Opcode::GetParam | Opcode::Act => Slot::Read(Field::Instrument, 1),
        }
    }

    /// Where the second and third operand bytes come from, once the first is `a`.
    pub fn later_slots(&self, a: i8) -> (r: (Slot, Slot))
        ensures
            r == later_slots(*self, a),
    {
        match self {
            Opcode::Nop | Opcode::Hlt => (Slot::Fixed(0), Slot::Fixed(0)),
            Opcode::Lea => (Slot::Read(Field::Address, 2), Slot::Read(Field::Address, 3)),
            Opcode::Mov => (
                Slot::Read(Field::Register, 2),
                if a == 0x01 {
                    Slot::Read(Field::Register, 3)
                } else if a == 0x02 {
                    Slot::Read(Field::Address, 3)
                } else {
                    Slot::Fixed(0)
                },
            ),
            Opcode::Cmp => (
                if a == 0x0D || a == 0x0E {
                    Slot::Read(Field::Address, 2)
                } else {
                    Slot::Read(Field::Register, 2)
                },
                Slot::Read(Field::Register, 3),
            ),
            Opcode::SetParam | Opcode::GetParam => (Slot::Read(Field::Parameter, 2), Slot::Read(Field::Register, 3)),
            Opcode::Act => (Slot::Read(Field::Action, 2), Slot::Read(Field::Register, 3)),
            Opcode::Str => (Slot::Fixed(0), Slot::Read(Field::Register, 2)),
            Opcode::Fma | Opcode::Fsd | Opcode::Nor | Opcode::Sin | Opcode::Cos | Opcode::Tan | Opcode::Pow =>
                (Slot::Read(Field::Register, 2), Slot::Read(Field::Register, 3)),
        }
    }
}

/// The byte that slot `s` yields on the fields `fs`, each trimmed first.
pub fn read_slot(s: Slot, fs: &Vec<&str>) -> (r: Result<i8, ErrorKind>)
    ensures
        r == slot_value(s, texts_view(fs@)),
{
    match s {
        Slot::Fixed(c) => Ok(c),
        Slot::Read(kind, k) => if k < fs.len() {
            resolve_field(kind, trim_text(fs[k]))
        } else {
            Err(ErrorKind::OperandCountMismatch)
        },
    }
}

/// Encodes the instruction line whose comma-separated fields are `fs` into one word.
pub fn encode_instruction(fs: &Vec<&str>) -> (r: Result<u32, ErrorKind>)
    ensures
        r == encode_spec(texts_view(fs@)),
{
    let ghost v = texts_view(fs@);
    let name = if fs.len() > 0 { trim_text(fs[0]) } else { "" };
    proof { reveal_strlit(""); }
    assert(name@ == (if v.len() > 0 { trim_spec(v[0]) } else { Seq::<char>::empty() }));
    let op = match decode_opcode(name) {
        None => { return Err(ErrorKind::UnknownMnemonic); },
        Some(op) => op,
    };
    let a = match read_slot(op.first_slot(), fs) {
        Err(e) => { return Err(e); },
        Ok(a) => a,
    };
    let (sb, sc) = op.later_slots(a);
    let b = match read_slot(sb, fs) {
        Err(e) => { return Err(e); },
        Ok(b) => b,
    };
    let c = match read_slot(sc, fs) {
        Err(e) => { return Err(e); },
        Ok(c) => c,
    };
    Ok(pack4x8to32(op.code(), a, b, c))
}

} // verus!
