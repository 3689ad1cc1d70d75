use splasm::assembler::{assemble, encode_header, encode_literal, process_line, Emitted, LineError, Mode};
use splasm::error::ErrorKind;

fn word(line: &str, mode: Mode) -> u32 {
    match process_line(line, mode).1 {
        Ok(Emitted::Word(w)) => w,
        other => panic!("expected a word, got {:?}", other),
    }
}

fn error(line: &str, mode: Mode) -> ErrorKind {
    match process_line(line, mode).1 {
        Err(e) => e,
        other => panic!("expected an error, got {:?}", other),
    }
}

fn float_bits(line: &str) -> u32 {
    match process_line(line, Mode::Data).1 {
        Ok(Emitted::Float(text)) => text.parse::<f32>().unwrap().to_bits(),
        other => panic!("expected a float literal, got {:?}", other),
    }
}

fn lines(text: &[&str]) -> Vec<String> {
    text.iter().map(|l| l.to_string()).collect()
}

#[test]
fn float_literals_encode_their_bits() {
    assert_eq!(float_bits("1.0f"), 0x3F800000);
    assert_eq!(float_bits("-1.0f"), 0xBF800000);
    assert_eq!(
        process_line("1.0f", Mode::Data).1,
        Ok(Emitted::Float("1.0".to_string()))
    );
}

#[test]
fn integer_literals_encode_their_bits() {
    assert_eq!(word("5i", Mode::Data), 0x00000005);
    assert_eq!(word("-1i", Mode::Data), 0xFFFFFFFF);
    assert_eq!(word("2147483647i", Mode::Data), 0x7FFFFFFF);
    assert_eq!(word("-2147483648i", Mode::Data), 0x80000000);
    assert_eq!(word("+12i", Mode::Data), 12);
}

#[test]
fn bad_data_literals_are_rejected() {
    assert_eq!(error("2147483648i", Mode::Data), ErrorKind::MalformedLiteral);
    assert_eq!(error("5x", Mode::Data), ErrorKind::MalformedLiteral);
    assert_eq!(error("", Mode::Data), ErrorKind::MalformedLiteral);
    assert_eq!(error("i", Mode::Data), ErrorKind::MalformedLiteral);
    assert_eq!(error("1.5i", Mode::Data), ErrorKind::MalformedLiteral);
    assert_eq!(error("-i", Mode::Data), ErrorKind::MalformedLiteral);
    assert_eq!(error("  +12i ", Mode::Data), ErrorKind::MalformedLiteral);
    assert_eq!(error("5i ", Mode::Data), ErrorKind::MalformedLiteral);
    assert_eq!(error(" 5i", Mode::Data), ErrorKind::MalformedLiteral);
}

#[test]
fn header_line_packs_four_bytes() {
    let (next, r) = process_line("1,2,3,4", Mode::Header);
    assert_eq!(next, Mode::Instructions);
    assert_eq!(r, Ok(Emitted::Word(0x01020304)));
    assert_eq!(word(" -1 , 127, -128 ,0", Mode::Header), 0xFF7F8000);
}

#[test]
fn bad_header_lines_are_rejected() {
    assert_eq!(error("1,2,3", Mode::Header), ErrorKind::OperandCountMismatch);
    assert_eq!(error("128,2,3,4", Mode::Header), ErrorKind::MalformedLiteral);
    assert_eq!(error("a,2,3,4", Mode::Header), ErrorKind::MalformedLiteral);
    assert_eq!(process_line("a,2,3,4", Mode::Header).0, Mode::Instructions);
}

#[test]
fn nop_encodes_to_zero() {
    assert_eq!(word("OP_NOP", Mode::Instructions), 0x00000000);
}

#[test]
fn mov_register_form() {
    // opcode 0x01, prefix 0x01, register A 0x00, register B 0x01
    assert_eq!(word("OP_MOV,PRE_MOV_REG,IREG_A,IREG_B", Mode::Instructions), 0x01010001);
    assert_eq!(word(" OP_MOV , PRE_MOV_REG ,\tIREG_A , IREG_B ", Mode::Instructions), 0x01010001);
}

#[test]
fn mov_ram_and_indirect_forms() {
    assert_eq!(word("OP_MOV,PRE_MOV_RAM,FREG_A,-2", Mode::Instructions), 0x010210FE);
    assert_eq!(word("OP_MOV,PRE_MOV_IND,IREG_C,anything", Mode::Instructions), 0x01030200);
    assert_eq!(word("OP_MOV,PRE_MOV_IND,IREG_A", Mode::Instructions), 0x01030000);
    assert_eq!(error("OP_MOV,PRE_MOV_REG,IREG_A", Mode::Instructions), ErrorKind::OperandCountMismatch);
    assert_eq!(error("OP_MOV,PRE_MOV_RAM,IREG_A", Mode::Instructions), ErrorKind::OperandCountMismatch);
    assert_eq!(error("OP_MOV,PRE_MOV_RAM,IREG_A,300", Mode::Instructions), ErrorKind::MalformedLiteral);
}

#[test]
fn each_opcode_layout() {
    assert_eq!(word("OP_HLT", Mode::Instructions), 0x07000000);
    assert_eq!(word("OP_LEA,IREG_D,5,-1", Mode::Instructions), 0x020305FF);
    assert_eq!(word("OP_CMP,ALU_GT,IREG_A,IREG_B", Mode::Instructions), 0x03030001);
    assert_eq!(word("OP_CMP,TSX_EQ,12,IREG_B", Mode::Instructions), 0x030D0C01);
    assert_eq!(word("OP_SET,INST_ADC,P_ADC_MTQZ,FREG_U", Mode::Instructions), 0x0401111F);
    assert_eq!(word("OP_GET,INST_GPS,P_GPS_TIME,IREG_U", Mode::Instructions), 0x0502040F);
    assert_eq!(word("OP_ACT,INST_IMG,A_IMG_DO_PNG,IREG_A", Mode::Instructions), 0x06030A00);
    assert_eq!(word("OP_STR,PRE_STR_FPU,FREG_B", Mode::Instructions), 0x08020011);
    assert_eq!(word("OP_FMA,FREG_A,FREG_B,FREG_C", Mode::Instructions), 0x09101112);
    assert_eq!(word("OP_FSD,FREG_A,FREG_B,FREG_C", Mode::Instructions), 0x0A101112);
    assert_eq!(word("OP_SIN,PRE_NORMAL,FREG_A,FREG_B", Mode::Instructions), 0x0B011011);
    assert_eq!(word("OP_COS,PRE_INVERT,FREG_A,FREG_B", Mode::Instructions), 0x0C021011);
    assert_eq!(word("OP_TAN,PRE_NORMAL,FREG_C,FREG_D", Mode::Instructions), 0x0D011213);
    assert_eq!(word("OP_POW,PRE_INVERT,FREG_P,FREG_U", Mode::Instructions), 0x0E021E1F);
    assert_eq!(word("OP_NOR,IREG_A,IREG_B,IREG_C", Mode::Instructions), 0x0F000102);
}

#[test]
fn unknown_opcode_is_an_error() {
    assert_eq!(error("OP_FOO,IREG_A,IREG_B,IREG_C", Mode::Instructions), ErrorKind::UnknownMnemonic);
    assert_eq!(error("", Mode::Instructions), ErrorKind::UnknownMnemonic);
    assert_eq!(error("op_nop", Mode::Instructions), ErrorKind::UnknownMnemonic);
}

#[test]
fn unknown_operands_and_short_lines_are_errors() {
    assert_eq!(error("OP_FMA,IREG_A,IREG_Z,IREG_B", Mode::Instructions), ErrorKind::UnknownMnemonic);
    assert_eq!(error("OP_MOV,PRE_BAD,IREG_A,IREG_B", Mode::Instructions), ErrorKind::UnknownMnemonic);
    assert_eq!(error("OP_FMA,IREG_A,IREG_B", Mode::Instructions), ErrorKind::OperandCountMismatch);
    assert_eq!(error("OP_STR,PRE_STR_ALU", Mode::Instructions), ErrorKind::OperandCountMismatch);
    assert_eq!(error("OP_CMP,ALU_EQ,IREG_A,7", Mode::Instructions), ErrorKind::UnknownMnemonic);
}

#[test]
fn halt_switches_to_data() {
    let (next, _) = process_line("OP_HLT", Mode::Instructions);
    assert_eq!(next, Mode::Data);
    let (next, _) = process_line("OP_NOP", Mode::Instructions);
    assert_eq!(next, Mode::Instructions);
    let (next, _) = process_line("OP_HLT", Mode::Data);
    assert_eq!(next, Mode::Data);
}

#[test]
fn line_after_halt_is_data() {
    let run = assemble(&lines(&["1,2,3,4", "OP_NOP", "OP_HLT", "OP_NOP", "7i"]));
    assert_eq!(run.results.len(), 5);
    assert_eq!(run.results[0], Ok(Emitted::Word(0x01020304)));
    assert_eq!(run.results[1], Ok(Emitted::Word(0)));
    assert_eq!(run.results[2], Ok(Emitted::Word(0x07000000)));
    assert_eq!(
        run.results[3],
        Err(LineError { line: 4, text: "OP_NOP".to_string(), kind: ErrorKind::MalformedLiteral })
    );
    assert_eq!(run.results[4], Ok(Emitted::Word(7)));
    assert_eq!(run.end, Mode::Data);
    assert_eq!(run.end_warning(), None);
}

#[test]
fn bad_line_does_not_stop_the_run() {
    let run = assemble(&lines(&["1,2,3,4", "OP_BAD", "OP_NOP"]));
    assert_eq!(
        run.results[1],
        Err(LineError { line: 2, text: "OP_BAD".to_string(), kind: ErrorKind::UnknownMnemonic })
    );
    assert_eq!(run.results[2], Ok(Emitted::Word(0)));
    assert_eq!(run.end, Mode::Instructions);
    assert_eq!(run.end_warning(), Some(ErrorKind::UnexpectedEndOfInput));
}

#[test]
fn empty_input_warns() {
    let run = assemble(&Vec::new());
    assert!(run.results.is_empty());
    assert_eq!(run.end, Mode::Header);
    assert_eq!(run.end_warning(), Some(ErrorKind::UnexpectedEndOfInput));
}

#[test]
fn literal_and_header_encoders() {
    assert_eq!(encode_literal("42i"), Ok(Emitted::Word(42)));
    assert_eq!(encode_literal("2.5f"), Ok(Emitted::Float("2.5".to_string())));
    assert_eq!(encode_literal("2.5d"), Err(ErrorKind::MalformedLiteral));
    assert_eq!(encode_header(&vec!["1", "2", "3", "4"]), Ok(0x01020304));
    assert_eq!(encode_header(&vec!["1", "2", "3"]), Err(ErrorKind::OperandCountMismatch));
}

#[test]
fn nop_after_halt_yields_no_word() {
    let run = assemble(&lines(&["1,2,3,4", "OP_HLT", "OP_NOP"]));
    assert_eq!(run.results[0], Ok(Emitted::Word(0x01020304)));
    assert_eq!(run.results[1], Ok(Emitted::Word(0x07000000)));
    assert_eq!(
        run.results[2],
        Err(LineError { line: 3, text: "OP_NOP".to_string(), kind: ErrorKind::MalformedLiteral })
    );
}
