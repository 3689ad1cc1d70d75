use vstd::prelude::*;
use crate::encoder::{decode_opcode, opcode_code, opcode_of};
use crate::text::same_text;

verus! {

/// Operand-format prefixes: the variants of `MOV`, `STR` and the trigonometric opcodes.
pub open spec fn prefix_code(m: Seq<char>) -> Option<i8> {
    if m == "PRE_MOV_REG"@ {
        Some(0x01)
    } else if m == "PRE_MOV_RAM"@ {
        Some(0x02)
    } else if m == "PRE_MOV_IND"@ {
        Some(0x03)
    } else if m == "PRE_STR_ALU"@ {
        Some(0x01)
    } else if m == "PRE_STR_FPU"@ {
        Some(0x02)
    } else if m == "PRE_STR_BIN"@ {
        Some(0x03)
    } else if m == "PRE_NORMAL"@ {
        Some(0x01)
    } else if m == "PRE_INVERT"@ {
        Some(0x02)
    } else {
        None
    }
}

/// The code of the prefix mnemonic `m`, or `None` where the table has no such entry.
pub fn decode_prefix(m: &str) -> (r: Option<i8>)
    ensures
        r == prefix_code(m@),
{
    if same_text(m, "PRE_MOV_REG") {
        Some(0x01)
    } else if same_text(m, "PRE_MOV_RAM") {
        Some(0x02)
    } else if same_text(m, "PRE_MOV_IND") {
        Some(0x03)
    } else if same_text(m, "PRE_STR_ALU") {
        Some(0x01)
    } else if same_text(m, "PRE_STR_FPU") {
        Some(0x02)
    } else if same_text(m, "PRE_STR_BIN") {
        Some(0x03)
    } else if same_text(m, "PRE_NORMAL") {
        Some(0x01)
    } else if same_text(m, "PRE_INVERT") {
        Some(0x02)
    } else {
        None
    }
}

/// Comparison operators: integer, floating-point and task-status.
pub open spec fn operator_code(m: Seq<char>) -> Option<i8> {
    if m == "ALU_EQ"@ {
        Some(0x01)
    } else if m == "ALU_NE"@ {
        Some(0x02)
    } else if m == "ALU_GT"@ {
        Some(0x03)
    } else if m == "ALU_LT"@ {
        Some(0x04)
    } else if m == "ALU_GE"@ {
        Some(0x05)
    } else if m == "ALU_LE"@ {
        Some(0x06)
    } else if m == "FPU_EQ"@ {
        Some(0x07)
    } else if m == "FPU_NE"@ {
        Some(0x08)
    } else if m == "FPU_GT"@ {
        Some(0x09)
    } else if m == "FPU_LT"@ {
        Some(0x0A)
    } else if m == "TSX_EQ"@ {
        Some(0x0D)
    } else if m == "TSX_NE"@ {
        Some(0x0E)
    } else {
        None
    }
}

/// The code of the operator mnemonic `m`, or `None` where the table has no such entry.
pub fn decode_operator(m: &str) -> (r: Option<i8>)
    ensures
        r == operator_code(m@),
{
    if same_text(m, "ALU_EQ") {
        Some(0x01)
    } else if same_text(m, "ALU_NE") {
        Some(0x02)
    } else if same_text(m, "ALU_GT") {
        Some(0x03)
    } else if same_text(m, "ALU_LT") {
        Some(0x04)
    } else if same_text(m, "ALU_GE") {
        Some(0x05)
    } else if same_text(m, "ALU_LE") {
        Some(0x06)
    } else if same_text(m, "FPU_EQ") {
        Some(0x07)
    } else if same_text(m, "FPU_NE") {
        Some(0x08)
    } else if same_text(m, "FPU_GT") {
        Some(0x09)
    } else if same_text(m, "FPU_LT") {
        Some(0x0A)
    } else if same_text(m, "TSX_EQ") {
        Some(0x0D)
    } else if same_text(m, "TSX_NE") {
        Some(0x0E)
    } else {
        None
    }
}

/// Instrument actions.
pub open spec fn action_code(m: Seq<char>) -> Option<i8> {
    if m == "A_IMG_DO_JPG"@ {
        Some(0x07)
    } else if m == "A_IMG_DO_RAW"@ {
        Some(0x08)
    } else if m == "A_IMG_DO_BMP"@ {
        Some(0x09)
    } else if m == "A_IMG_DO_PNG"@ {
        Some(0x0A)
    } else if m == "A_ADC_NADIR"@ {
        Some(0x05)
    } else if m == "A_ADC_TOSUN"@ {
        Some(0x06)
    } else if m == "A_ADC_BDOTT"@ {
        Some(0x07)
    } else if m == "A_ADC_TRACK"@ {
        Some(0x08)
    } else if m == "A_ADC_UNSET"@ {
        Some(0x09)
    } else {
        None
    }
}

/// The code of the action mnemonic `m`, or `None` where the table has no such entry.
pub fn decode_action(m: &str) -> (r: Option<i8>)
    ensures
        r == action_code(m@),
{
    if same_text(m, "A_IMG_DO_JPG") {
        Some(0x07)
    } else if same_text(m, "A_IMG_DO_RAW") {
        Some(0x08)
    } else if same_text(m, "A_IMG_DO_BMP") {
        Some(0x09)
    } else if same_text(m, "A_IMG_DO_PNG") {
        Some(0x0A)
    } else if same_text(m, "A_ADC_NADIR") {
        Some(0x05)
    } else if same_text(m, "A_ADC_TOSUN") {
        Some(0x06)
    } else if same_text(m, "A_ADC_BDOTT") {
        Some(0x07)
    } else if same_text(m, "A_ADC_TRACK") {
        Some(0x08)
    } else if same_text(m, "A_ADC_UNSET") {
        Some(0x09)
    } else {
        None
    }
}

/// Instruments.
pub open spec fn instrument_code(m: Seq<char>) -> Option<i8> {
    if m == "INST_ADC"@ {
        Some(0x01)
    } else if m == "INST_GPS"@ {
        Some(0x02)
    } else if m == "INST_IMG"@ {
        Some(0x03)
    } else if m == "INST_FPU"@ {
        Some(0x04)
    } else if m == "INST_SDR"@ {
        Some(0x05)
    } else if m == "INST_NMF"@ {
        Some(0x06)
    } else if m == "INST_VXM"@ {
        Some(0x07)
    } else {
        None
    }
}

/// The code of the instrument mnemonic `m`, or `None` where the table has no such entry.
pub fn decode_instrument(m: &str) -> (r: Option<i8>)
    ensures
        r == instrument_code(m@),
{
    if same_text(m, "INST_ADC") {
        Some(0x01)
    } else if same_text(m, "INST_GPS") {
        Some(0x02)
    } else if same_text(m, "INST_IMG") {
        Some(0x03)
    } else if same_text(m, "INST_FPU") {
        Some(0x04)
    } else if same_text(m, "INST_SDR") {
        Some(0x05)
    } else if same_text(m, "INST_NMF") {
        Some(0x06)
    } else if same_text(m, "INST_VXM") {
        Some(0x07)
    } else {
        None
    }
}

/// Instrument parameters; a code is only meaningful together with its instrument.
pub open spec fn parameter_code(m: Seq<char>) -> Option<i8> {
    if m == "P_ADC_MODE"@ {
        Some(0x01)
    } else if m == "P_ADC_MAGX"@ {
        Some(0x02)
    } else if m == "P_ADC_MAGY"@ {
        Some(0x03)
    } else if m == "P_ADC_MAGZ"@ {
        Some(0x04)
    } else if m == "P_ADC_SUNX"@ {
        Some(0x05)
    } else if m == "P_ADC_SUNY"@ {
        Some(0x06)
    } else if m == "P_ADC_SUNZ"@ {
        Some(0x07)
    } else if m == "P_ADC_ANGX"@ {
        Some(0x08)
    } else if m == "P_ADC_ANGY"@ {
        Some(0x09)
    } else if m == "P_ADC_ANGZ"@ {
        Some(0x0A)
    } else if m == "P_ADC_QTNA"@ {
        Some(0x0B)
    } else if m == "P_ADC_QTNB"@ {
        Some(0x0C)
    } else if m == "P_ADC_QTNC"@ {
        Some(0x0D)
    } else if m == "P_ADC_QTND"@ {
        Some(0x0E)
    } else if m == "P_ADC_MTQX"@ {
        Some(0x0F)
    } else if m == "P_ADC_MTQY"@ {
        Some(0x10)
    } else if m == "P_ADC_MTQZ"@ {
        Some(0x11)
    } else if m == "P_IMG_GAIN_R"@ {
        Some(0x01)
    } else if m == "P_IMG_GAIN_G"@ {
        Some(0x02)
    } else if m == "P_IMG_GAIN_B"@ {
        Some(0x03)
    } else if m == "P_IMG_EXPOSE"@ {
        Some(0x04)
    } else if m == "P_IMG_STATUS"@ {
        Some(0x05)
    } else if m == "P_IMG_NUMBER"@ {
        Some(0x06)
    } else if m == "P_GPS_LATT"@ {
        Some(0x01)
    } else if m == "P_GPS_LONG"@ {
        Some(0x02)
    } else if m == "P_GPS_ALTT"@ {
        Some(0x03)
    } else if m == "P_GPS_TIME"@ {
        Some(0x04)
    } else if m == "P_NMF_TIME"@ {
        Some(0x01)
    } else if m == "P_VXM_TIME"@ {
        Some(0x01)
    } else if m == "P_VXM_PRSN"@ {
        Some(0x02)
    } else if m == "P_VXM_TLSC"@ {
        Some(0x03)
    } else if m == "P_VXM_DBUG"@ {
        Some(0x04)
    } else if m == "P_FPU_NIL"@ {
        Some(0x00)
    } else if m == "P_FPU_ONE"@ {
        Some(0x01)
    } else if m == "P_FPU_EXP"@ {
        Some(0x02)
    } else if m == "P_FPU_PIE"@ {
        Some(0x03)
    } else {
        None
    }
}

/// The code of the parameter mnemonic `m`, or `None` where the table has no such entry.
pub fn decode_parameter(m: &str) -> (r: Option<i8>)
    ensures
        r == parameter_code(m@),
{
    if same_text(m, "P_ADC_MODE") {
        Some(0x01)
    } else if same_text(m, "P_ADC_MAGX") {
        Some(0x02)
    } else if same_text(m, "P_ADC_MAGY") {
        Some(0x03)
    } else if same_text(m, "P_ADC_MAGZ") {
        Some(0x04)
    } else if same_text(m, "P_ADC_SUNX") {
        Some(0x05)
    } else if same_text(m, "P_ADC_SUNY") {
        Some(0x06)
    } else if same_text(m, "P_ADC_SUNZ") {
        Some(0x07)
    } else if same_text(m, "P_ADC_ANGX") {
        Some(0x08)
    } else if same_text(m, "P_ADC_ANGY") {
        Some(0x09)
    } else if same_text(m, "P_ADC_ANGZ") {
        Some(0x0A)
    } else if same_text(m, "P_ADC_QTNA") {
        Some(0x0B)
    } else if same_text(m, "P_ADC_QTNB") {
        Some(0x0C)
    } else if same_text(m, "P_ADC_QTNC") {
        Some(0x0D)
    } else if same_text(m, "P_ADC_QTND") {
        Some(0x0E)
    } else if same_text(m, "P_ADC_MTQX") {
        Some(0x0F)
    } else if same_text(m, "P_ADC_MTQY") {
        Some(0x10)
    } else if same_text(m, "P_ADC_MTQZ") {
        Some(0x11)
    } else if same_text(m, "P_IMG_GAIN_R") {
        Some(0x01)
    } else if same_text(m, "P_IMG_GAIN_G") {
        Some(0x02)
    } else if same_text(m, "P_IMG_GAIN_B") {
        Some(0x03)
    } else if same_text(m, "P_IMG_EXPOSE") {
        Some(0x04)
    } else if same_text(m, "P_IMG_STATUS") {
        Some(0x05)
    } else if same_text(m, "P_IMG_NUMBER") {
        Some(0x06)
    } else if same_text(m, "P_GPS_LATT") {
        Some(0x01)
    } else if same_text(m, "P_GPS_LONG") {
        Some(0x02)
    } else if same_text(m, "P_GPS_ALTT") {
        Some(0x03)
    } else if same_text(m, "P_GPS_TIME") {
        Some(0x04)
    } else if same_text(m, "P_NMF_TIME") {
        Some(0x01)
    } else if same_text(m, "P_VXM_TIME") {
        Some(0x01)
    } else if same_text(m, "P_VXM_PRSN") {
        Some(0x02)
    } else if same_text(m, "P_VXM_TLSC") {
        Some(0x03)
    } else if same_text(m, "P_VXM_DBUG") {
        Some(0x04)
    } else if same_text(m, "P_FPU_NIL") {
        Some(0x00)
    } else if same_text(m, "P_FPU_ONE") {
        Some(0x01)
    } else if same_text(m, "P_FPU_EXP") {
        Some(0x02)
    } else if same_text(m, "P_FPU_PIE") {
        Some(0x03)
    } else {
        None
    }
}

/// Registers: integer registers take 0x00..=0x0F, floating-point registers 0x10..=0x1F.
pub open spec fn register_code(m: Seq<char>) -> Option<i8> {
    if m == "IREG_A"@ {
        Some(0x00)
    } else if m == "IREG_B"@ {
        Some(0x01)
    } else if m == "IREG_C"@ {
        Some(0x02)
    } else if m == "IREG_D"@ {
        Some(0x03)
    } else if m == "IREG_E"@ {
        Some(0x04)
    } else if m == "IREG_F"@ {
        Some(0x05)
    } else if m == "IREG_G"@ {
        Some(0x06)
    } else if m == "IREG_H"@ {
        Some(0x07)
    } else if m == "IREG_I"@ {
        Some(0x08)
    } else if m == "IREG_J"@ {
        Some(0x09)
    } else if m == "IREG_K"@ {
        Some(0x0A)
    } else if m == "IREG_L"@ {
        Some(0x0B)
    } else if m == "IREG_M"@ {
        Some(0x0C)
    } else if m == "IREG_N"@ {
        Some(0x0D)
    } else if m == "IREG_P"@ {
        Some(0x0E)
    } else if m == "IREG_U"@ {
        Some(0x0F)
    } else if m == "FREG_A"@ {
        Some(0x10)
    } else if m == "FREG_B"@ {
        Some(0x11)
    } else if m == "FREG_C"@ {
        Some(0x12)
    } else if m == "FREG_D"@ {
        Some(0x13)
    } else if m == "FREG_E"@ {
        Some(0x14)
    } else if m == "FREG_F"@ {
        Some(0x15)
    } else if m == "FREG_G"@ {
        Some(0x16)
    } else if m == "FREG_H"@ {
        Some(0x17)
    } else if m == "FREG_I"@ {
        Some(0x18)
    } else if m == "FREG_J"@ {
        Some(0x19)
    } else if m == "FREG_K"@ {
        Some(0x1A)
    } else if m == "FREG_L"@ {
        Some(0x1B)
    } else if m == "FREG_M"@ {
        Some(0x1C)
    } else if m == "FREG_N"@ {
        Some(0x1D)
    } else if m == "FREG_P"@ {
        Some(0x1E)
    } else if m == "FREG_U"@ {
        Some(0x1F)
    } else {
        None
    }
}

/// The code of the register mnemonic `m`, or `None` where the table has no such entry.
pub fn decode_register(m: &str) -> (r: Option<i8>)
    ensures
        r == register_code(m@),
{
    if same_text(m, "IREG_A") {
        Some(0x00)
    } else if same_text(m, "IREG_B") {
        Some(0x01)
    } else if same_text(m, "IREG_C") {
        Some(0x02)
    } else if same_text(m, "IREG_D") {
        Some(0x03)
    } else if same_text(m, "IREG_E") {
        Some(0x04)
    } else if same_text(m, "IREG_F") {
        Some(0x05)
    } else if same_text(m, "IREG_G") {
        Some(0x06)
    } else if same_text(m, "IREG_H") {
        Some(0x07)
    } else if same_text(m, "IREG_I") {
        Some(0x08)
    } else if same_text(m, "IREG_J") {
        Some(0x09)
    } else if same_text(m, "IREG_K") {
        Some(0x0A)
    } else if same_text(m, "IREG_L") {
        Some(0x0B)
    } else if same_text(m, "IREG_M") {
        Some(0x0C)
    } else if same_text(m, "IREG_N") {
        Some(0x0D)
    } else if same_text(m, "IREG_P") {
        Some(0x0E)
    } else if same_text(m, "IREG_U") {
        Some(0x0F)
    } else if same_text(m, "FREG_A") {
        Some(0x10)
    } else if same_text(m, "FREG_B") {
        Some(0x11)
    } else if same_text(m, "FREG_C") {
        Some(0x12)
    } else if same_text(m, "FREG_D") {
        Some(0x13)
    } else if same_text(m, "FREG_E") {
        Some(0x14)
    } else if same_text(m, "FREG_F") {
        Some(0x15)
    } else if same_text(m, "FREG_G") {
        Some(0x16)
    } else if same_text(m, "FREG_H") {
        Some(0x17)
    } else if same_text(m, "FREG_I") {
        Some(0x18)
    } else if same_text(m, "FREG_J") {
        Some(0x19)
    } else if same_text(m, "FREG_K") {
        Some(0x1A)
    } else if same_text(m, "FREG_L") {
        Some(0x1B)
    } else if same_text(m, "FREG_M") {
        Some(0x1C)
    } else if same_text(m, "FREG_N") {
        Some(0x1D)
    } else if same_text(m, "FREG_P") {
        Some(0x1E)
    } else if same_text(m, "FREG_U") {
        Some(0x1F)
    } else {
        None
    }
}

/// The symbol tables, one per kind of mnemonic.
#[derive(Clone, Copy, Debug, PartialEq, Eq, Structural)]
pub enum Category {
    Opcode,
    Operator,
    Register,
    Instrument,
    Parameter,
    Action,
    Prefix,
}

/// The code of `m` in the table of `cat`.
pub open spec fn category_code(cat: Category, m: Seq<char>) -> Option<i8> {
    match cat {
        Category::Opcode => match opcode_of(m) {
            Some(op) => Some(opcode_code(op)),
            None => None,
        },
        Category::Operator => operator_code(m),
        Category::Register => register_code(m),
        Category::Instrument => instrument_code(m),
        Category::Parameter => parameter_code(m),
        Category::Action => action_code(m),
        Category::Prefix => prefix_code(m),
    }
}

/// The least and the greatest code that the table of `cat` holds.
pub open spec fn code_range(cat: Category) -> (int, int) {
    match cat {
        Category::Opcode => (0x00, 0x0F),
        Category::Operator => (0x01, 0x0E),
        Category::Register => (0x00, 0x1F),
        Category::Instrument => (0x01, 0x07),
        Category::Parameter => (0x00, 0x11),
        Category::Action => (0x05, 0x0A),
        Category::Prefix => (0x01, 0x03),
    }
}

/// Whether `c` is the code of a floating-point register rather than an integer one.
pub open spec fn is_fpu_register(c: i8) -> bool {
    0x10 <= c <= 0x1F
}

/// The code of the mnemonic `m` in the table of `cat`, or `None` where it has no entry.
/// The result depends on the category and the characters of `m` alone.
pub fn lookup(cat: Category, m: &str) -> (r: Option<i8>)
    ensures
        r == category_code(cat, m@),
{
    match cat {
        Category::Opcode => match decode_opcode(m) {
            Some(op) => Some(op.code()),
            None => None,
        },
        Category::Operator => decode_operator(m),
        Category::Register => decode_register(m),
        Category::Instrument => decode_instrument(m),
        Category::Parameter => decode_parameter(m),
        Category::Action => decode_action(m),
        Category::Prefix => decode_prefix(m),
    }
}

/// Every code that a table yields lies in that table's range, and a register's class
/// follows from its code: integer registers are named `IREG_*`, floating-point ones `FREG_*`.
pub proof fn lemma_code_in_range(cat: Category, m: Seq<char>)
    ensures
        category_code(cat, m) matches Some(c) ==> code_range(cat).0 <= c <= code_range(cat).1,
        cat == Category::Register && category_code(cat, m) is Some ==> (is_fpu_register(
            category_code(cat, m)->0,
        ) <==> m.len() > 0 && m[0] == 'F'),
{
    reveal_strlit("IREG_A");
    reveal_strlit("IREG_B");
    reveal_strlit("IREG_C");
    reveal_strlit("IREG_D");
    reveal_strlit("IREG_E");
    reveal_strlit("IREG_F");
    reveal_strlit("IREG_G");
    reveal_strlit("IREG_H");
    reveal_strlit("IREG_I");
    reveal_strlit("IREG_J");
    reveal_strlit("IREG_K");
    reveal_strlit("IREG_L");
    reveal_strlit("IREG_M");
    reveal_strlit("IREG_N");
    reveal_strlit("IREG_P");
    reveal_strlit("IREG_U");
    reveal_strlit("FREG_A");
    reveal_strlit("FREG_B");
    reveal_strlit("FREG_C");
    reveal_strlit("FREG_D");
    reveal_strlit("FREG_E");
    reveal_strlit("FREG_F");
    reveal_strlit("FREG_G");
    reveal_strlit("FREG_H");
    reveal_strlit("FREG_I");
    reveal_strlit("FREG_J");
    reveal_strlit("FREG_K");
    reveal_strlit("FREG_L");
    reveal_strlit("FREG_M");
    reveal_strlit("FREG_N");
    reveal_strlit("FREG_P");
    reveal_strlit("FREG_U");
}

} // verus!
