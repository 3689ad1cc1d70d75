use splasm::encoder::{decode_address, decode_opcode, resolve_field, Field, Opcode};
use splasm::tables::{
    decode_action, decode_instrument, decode_operator, decode_parameter, decode_prefix, decode_register,
    lookup, Category,
};
use splasm::error::ErrorKind;

const REGISTERS: [&str; 16] = [
    "A", "B", "C", "D", "E", "F", "G", "H", "I", "J", "K", "L", "M", "N", "P", "U",
];

#[test]
fn registers_split_into_two_classes() {
    for (i, r) in REGISTERS.iter().enumerate() {
        assert_eq!(decode_register(&format!("IREG_{}", r)), Some(i as i8));
        assert_eq!(decode_register(&format!("FREG_{}", r)), Some(0x10 + i as i8));
    }
    assert_eq!(decode_register("IREG_O"), None);
    assert_eq!(decode_register("ireg_a"), None);
}

#[test]
fn lookups_are_stable_and_in_range() {
    let cases: [(Category, &str, i8, i8); 7] = [
        (Category::Opcode, "OP_NOR", 0x00, 0x0F),
        (Category::Operator, "TSX_NE", 0x01, 0x0E),
        (Category::Register, "FREG_U", 0x00, 0x1F),
        (Category::Instrument, "INST_VXM", 0x01, 0x07),
        (Category::Parameter, "P_ADC_MTQZ", 0x00, 0x11),
        (Category::Action, "A_IMG_DO_PNG", 0x05, 0x0A),
        (Category::Prefix, "PRE_MOV_IND", 0x01, 0x03),
    ];
    for (cat, m, lo, hi) in cases {
        let first = lookup(cat, m).unwrap();
        assert_eq!(lookup(cat, m), Some(first));
        assert!(lo <= first && first <= hi);
        assert_eq!(lookup(cat, "NOT_A_MNEMONIC"), None);
    }
}

#[test]
fn tables_hold_their_codes() {
    assert_eq!(decode_prefix("PRE_STR_BIN"), Some(3));
    assert_eq!(decode_prefix("PRE_NORMAL"), Some(1));
    assert_eq!(decode_operator("ALU_LE"), Some(6));
    assert_eq!(decode_operator("FPU_LT"), Some(0x0A));
    assert_eq!(decode_operator("TSX_EQ"), Some(0x0D));
    assert_eq!(decode_action("A_ADC_NADIR"), Some(5));
    assert_eq!(decode_action("A_IMG_DO_JPG"), Some(7));
    assert_eq!(decode_instrument("INST_SDR"), Some(5));
    assert_eq!(decode_parameter("P_IMG_GAIN_R"), Some(1));
    assert_eq!(decode_parameter("P_ADC_MODE"), Some(1));
    assert_eq!(decode_parameter("P_FPU_NIL"), Some(0));
    assert_eq!(decode_parameter("P_FPU_PIE"), Some(3));
    assert_eq!(decode_instrument("INST_XYZ"), None);
    assert_eq!(decode_opcode("OP_SET"), Some(Opcode::SetParam));
    assert_eq!(Opcode::Nor.code(), 0x0F);
    assert_eq!(decode_opcode("OP_JMP"), None);
}

#[test]
fn addresses_are_signed_bytes() {
    assert_eq!(decode_address("0"), Some(0));
    assert_eq!(decode_address("-128"), Some(-128));
    assert_eq!(decode_address("+127"), Some(127));
    assert_eq!(decode_address("128"), None);
    assert_eq!(decode_address(""), None);
    assert_eq!(decode_address("-"), None);
    assert_eq!(decode_address(" 1"), None);
    assert_eq!(decode_address("99999999999999999999"), None);
}

#[test]
fn fields_resolve_by_kind() {
    assert_eq!(resolve_field(Field::Register, "IREG_B"), Ok(1));
    assert_eq!(resolve_field(Field::Register, "XREG"), Err(ErrorKind::UnknownMnemonic));
    assert_eq!(resolve_field(Field::Address, "x"), Err(ErrorKind::MalformedLiteral));
    assert_eq!(resolve_field(Field::Address, "-5"), Ok(-5));
}
