use vstd::prelude::*;
use vstd::string::StrSliceExecFns;
use crate::encoder::{encode_instruction, encode_spec, opcode_of, texts_view};
use crate::error::ErrorKind;
use crate::text::{
    decimal_in, lemma_split_nonempty, parse_i32, parse_i8, same_text, split_commas, split_fields,
    trim_spec, trim_text,
};
use crate::word::{pack4x8to32, pack_spec};

verus! {

/// How the next line is read: the one header line, then instructions up to the halt opcode,
/// then data literals.
#[derive(Clone, Copy, Debug, PartialEq, Eq, Structural)]
pub enum Mode {
    Header,
    Instructions,
    Data,
}

/// What one line yields.
#[derive(Clone, Debug, PartialEq, Eq)]
pub enum Emitted {
    /// A finished word.
    Word(u32),
    /// A floating-point literal, given as its text without the `f` suffix: its word is the
    /// bit pattern of the 32-bit float that the text denotes.
    Float(String),
}

/// What one line yields, with texts as character sequences.
pub enum EmittedView {
    Word(u32),
    Float(Seq<char>),
}

impl View for Emitted {
    type V = EmittedView;

    open spec fn view(&self) -> EmittedView {
        match self {
            Emitted::Word(w) => EmittedView::Word(*w),
            Emitted::Float(t) => EmittedView::Float(t@),
        }
    }
}

/// The bit pattern of the 32-bit signed integer `v`.
pub open spec fn word_of_i32(v: int) -> u32 {
    if v < 0 { (v + 0x1_0000_0000) as u32 } else { v as u32 }
}

/// The word for the header line whose fields are `fs`: group, task, frequency and length,
/// each a signed byte in decimal.
pub open spec fn header_spec(fs: Seq<Seq<char>>) -> Result<u32, ErrorKind> {
    if fs.len() < 4 {
        Err(ErrorKind::OperandCountMismatch)
    } else {
        let a = decimal_in(trim_spec(fs[0]), -128, 127);
        let b = decimal_in(trim_spec(fs[1]), -128, 127);
        let c = decimal_in(trim_spec(fs[2]), -128, 127);
        let d = decimal_in(trim_spec(fs[3]), -128, 127);
        if a is Some && b is Some && c is Some && d is Some {
            Ok(pack_spec(a->0 as i8, b->0 as i8, c->0 as i8, d->0 as i8) as u32)
        } else {
            Err(ErrorKind::MalformedLiteral)
        }
    }
}

/// What the data line `line` yields: a number followed by `i` (a 32-bit signed integer in
/// decimal) or by `f` (a 32-bit float), with nothing before or after.
pub open spec fn data_spec(line: Seq<char>) -> Result<EmittedView, ErrorKind> {
    if line.len() == 0 {
        Err(ErrorKind::MalformedLiteral)
    } else if line.last() == 'i' {
        match decimal_in(line.drop_last(), -0x8000_0000, 0x7fff_ffff) {
            Some(v) => Ok(EmittedView::Word(word_of_i32(v))),
            None => Err(ErrorKind::MalformedLiteral),
        }
    } else if line.last() == 'f' {
        Ok(EmittedView::Float(line.drop_last()))
    } else {
        Err(ErrorKind::MalformedLiteral)
    }
}

/// Whether the first field of `line` is the halt mnemonic.
pub open spec fn is_halt_line(line: Seq<char>) -> bool {
    trim_spec(split_commas(line)[0]) == "OP_HLT"@
}

/// The mode after reading `line` in mode `mode`.
pub open spec fn next_mode(mode: Mode, line: Seq<char>) -> Mode {
    match mode {
        Mode::Header => Mode::Instructions,
        Mode::Instructions => if is_halt_line(line) { Mode::Data } else { Mode::Instructions },
        Mode::Data => Mode::Data,
    }
}

/// What `line` yields when read in mode `mode`.
pub open spec fn line_spec(mode: Mode, line: Seq<char>) -> Result<EmittedView, ErrorKind> {
    match mode {
        Mode::Header => match header_spec(split_commas(line)) {
            Ok(w) => Ok(EmittedView::Word(w)),
            Err(e) => Err(e),
        },
        Mode::Instructions => match encode_spec(split_commas(line)) {
            Ok(w) => Ok(EmittedView::Word(w)),
            Err(e) => Err(e),
        },
        Mode::Data => data_spec(line),
    }
}

/// `r` with texts as character sequences.
pub open spec fn result_view(r: Result<Emitted, ErrorKind>) -> Result<EmittedView, ErrorKind> {
    match r {
        Ok(e) => Ok(e@),
        Err(k) => Err(k),
    }
}

/// The word for the header line whose fields are `fs`.
pub fn encode_header(fs: &Vec<&str>) -> (r: Result<u32, ErrorKind>)
    ensures
        r == header_spec(texts_view(fs@)),
{
    if fs.len() < 4 {
        return Err(ErrorKind::OperandCountMismatch);
    }
    let a = parse_i8(trim_text(fs[0]));
    let b = parse_i8(trim_text(fs[1]));
    let c = parse_i8(trim_text(fs[2]));
    let d = parse_i8(trim_text(fs[3]));
    match (a, b, c, d) {
        (Some(a), Some(b), Some(c), Some(d)) => Ok(pack4x8to32(a, b, c, d)),
        _ => Err(ErrorKind::MalformedLiteral),
    }
}

/// What the data line `line` yields.
pub fn encode_literal(line: &str) -> (r: Result<Emitted, ErrorKind>)
    ensures
        result_view(r) == data_spec(line@),
{
    let n = line.unicode_len();
    if n == 0 {
        return Err(ErrorKind::MalformedLiteral);
    }
    let suffix = line.get_char(n - 1);
    let body = line.substring_char(0, n - 1);
    assert(body@ =~= line@.drop_last());
    if suffix == 'i' {
        match parse_i32(body) {
            Some(v) => {
                let w: u32 = if v < 0 { (v as i64 + 0x1_0000_0000) as u32 } else { v as u32 };
                Ok(Emitted::Word(w))
            },
            None => Err(ErrorKind::MalformedLiteral),
        }
    } else if suffix == 'f' {
        Ok(Emitted::Float(String::from_str(body)))
    } else {
        Err(ErrorKind::MalformedLiteral)
    }
}

/// Reads one line in mode `mode`: returns the mode for the next line and what this line
/// yields. A line that fails still moves the mode on as a good one would.
pub fn process_line(line: &str, mode: Mode) -> (r: (Mode, Result<Emitted, ErrorKind>))
    ensures
        r.0 == next_mode(mode, line@),
        result_view(r.1) == line_spec(mode, line@),
{
    let fs = split_fields(line);
    assert(texts_view(fs@) =~= split_commas(line@));
    proof { lemma_split_nonempty(line@); }
    match mode {
        Mode::Header => {
            let r = match encode_header(&fs) {
                Ok(w) => Ok(Emitted::Word(w)),
                Err(e) => Err(e),
            };
            (Mode::Instructions, r)
        },
        Mode::Instructions => {
            let halt = same_text(trim_text(fs[0]), "OP_HLT");
            let r = match encode_instruction(&fs) {
                Ok(w) => Ok(Emitted::Word(w)),
                Err(e) => Err(e),
            };
            (if halt { Mode::Data } else { Mode::Instructions }, r)
        },
        Mode::Data => (Mode::Data, encode_literal(line)),
    }
}

/// The mode in which line `k` of `lines` is read.
pub open spec fn mode_before(lines: Seq<Seq<char>>, k: nat) -> Mode
    decreases k,
{
    if k == 0 {
        Mode::Header
    } else {
        next_mode(mode_before(lines, (k - 1) as nat), lines[k - 1])
    }
}

/// The warning owed when input ends in mode `mode`: before the header was read or while
/// instructions were still being read.
pub open spec fn end_spec(mode: Mode) -> Option<ErrorKind> {
    match mode {
        Mode::Data => None,
        _ => Some(ErrorKind::UnexpectedEndOfInput),
    }
}

/// A line that yielded no word: its number (the first line is 1), its text and why.
#[derive(Clone, Debug, PartialEq, Eq)]
pub struct LineError {
    pub line: usize,
    pub text: String,
    pub kind: ErrorKind,
}

/// The result of a whole run: what each line yielded, in input order, and the final mode.
#[derive(Clone, Debug)]
pub struct Assembly {
    pub results: Vec<Result<Emitted, LineError>>,
    pub end: Mode,
}

/// Whether `r`, reported for line `k` whose text is `text`, is what `expected` says.
pub open spec fn reports(r: Result<Emitted, LineError>, k: int, text: Seq<char>, expected: Result<EmittedView, ErrorKind>) -> bool {
    match expected {
        Ok(v) => r matches Ok(e) && e@ == v,
        Err(kind) => r matches Err(le) && le.kind == kind && le.line == k + 1 && le.text@ == text,
    }
}

/// The texts of `lines` as character sequences.
pub open spec fn lines_view(lines: Seq<String>) -> Seq<Seq<char>> {
    lines.map_values(|l: String| l@)
}

/// Reads `lines` in order, carrying the mode from each line to the next. Every line gets
/// one entry in the result; a failed line is reported and the run goes on.
pub fn assemble(lines: &Vec<String>) -> (r: Assembly)
    ensures
        r.results@.len() == lines@.len(),
        forall|k: int| 0 <= k < lines@.len() ==> #[trigger] reports(
            r.results@[k],
            k,
            lines@[k]@,
            line_spec(mode_before(lines_view(lines@), k as nat), lines@[k]@),
        ),
        r.end == mode_before(lines_view(lines@), lines@.len()),
{
    let ghost lv = lines_view(lines@);
    let mut results: Vec<Result<Emitted, LineError>> = Vec::new();
    let mut mode = Mode::Header;
    let mut k: usize = 0;
    while k < lines.len()
        invariant
            lv == lines_view(lines@),
            k <= lines@.len(),
            results@.len() == k,
            mode == mode_before(lv, k as nat),
            forall|j: int| 0 <= j < k ==> #[trigger] reports(
                results@[j],
                j,
                lines@[j]@,
                line_spec(mode_before(lv, j as nat), lines@[j]@),
            ),
        decreases lines@.len() - k,
    {
        let line = lines[k].as_str();
        let (next, r) = process_line(line, mode);
        let entry = match r {
            Ok(e) => Ok(e),
            Err(kind) => Err(LineError { line: k + 1, text: lines[k].clone(), kind }),
        };
        results.push(entry);
        assert(lv[k as int] == lines@[k as int]@);
        mode = next;
        k = k + 1;
    }
    Assembly { results, end: mode }
}

impl Assembly {
    /// The warning owed for where the input ended: `UnexpectedEndOfInput` unless the data
    /// part was reached.
    pub fn end_warning(&self) -> (r: Option<ErrorKind>)
        ensures
            r == end_spec(self.end),
    {
        match self.end {
            Mode::Data => None,
            _ => Some(ErrorKind::UnexpectedEndOfInput),
        }
    }
}

/// Once the halt opcode is read as an instruction, every later line is read as a data
/// literal, whatever it holds.
pub proof fn lemma_halt_then_data(lines: Seq<Seq<char>>, k: nat, j: nat)
    requires
        k < j <= lines.len(),
        mode_before(lines, k) == Mode::Instructions,
        is_halt_line(lines[k as int]),
    ensures
        mode_before(lines, j) == Mode::Data,
        j < lines.len() ==> line_spec(mode_before(lines, j), lines[j as int]) == data_spec(lines[j as int]),
    decreases j,
{
    if j > k + 1 {
        lemma_halt_then_data(lines, k, (j - 1) as nat);
    }
}

/// An instruction line whose opcode mnemonic is in no table yields `UnknownMnemonic`,
/// never a word.
pub proof fn lemma_unknown_opcode_rejected(line: Seq<char>)
    requires
        opcode_of(trim_spec(split_commas(line)[0])) is None,
    ensures
        line_spec(Mode::Instructions, line) == Err::<EmittedView, ErrorKind>(ErrorKind::UnknownMnemonic),
{
    lemma_split_nonempty(line);
}

} // verus!
