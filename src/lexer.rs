use vstd::prelude::*;
use vstd::string::StrSliceExecFns;
use crate::lexeme::{Lexeme, LexemeKind};
use crate::text::{is_whitespace, unicode_whitespace};

verus! {

/// Whether `c` has the Unicode `Alphabetic` property, as `char::is_alphabetic` decides.
pub uninterp spec fn unicode_alphabetic(c: char) -> bool;

/// Whether `c` is alphabetic or numeric, as `char::is_alphanumeric` decides.
pub uninterp spec fn unicode_alphanumeric(c: char) -> bool;

/// Relies on `char::is_alphabetic`, which depends on the character alone.
#[verifier::external_body]
fn is_alphabetic(c: char) -> (r: bool)
    ensures
        r == unicode_alphabetic(c),
{
    c.is_alphabetic()
}

/// Relies on `char::is_alphanumeric`, which depends on the character alone and holds of
/// every alphabetic character.
#[verifier::external_body]
fn is_alphanumeric(c: char) -> (r: bool)
    ensures
        r == unicode_alphanumeric(c),
        unicode_alphabetic(c) ==> r,
{
    c.is_alphanumeric()
}

/// The state of a lexer: its input, the index of the next character, the line and column
/// of that character, and whether the end-of-input lexeme was handed out.
pub struct LexState {
    pub input: Seq<char>,
    pub position: int,
    pub line: int,
    pub column: int,
    pub finished: bool,
}

/// A lexeme as a model: kind, first character index, length in characters, line and column.
pub struct Token {
    pub kind: LexemeKind,
    pub start: int,
    pub len: int,
    pub line: int,
    pub column: int,
}

/// The index of the first line break at or after `i`, or the length of `s`.
pub open spec fn comment_end(s: Seq<char>, i: int) -> int
    decreases s.len() - i,
{
    if i >= s.len() || s[i] == '\n' {
        i
    } else {
        comment_end(s, i + 1)
    }
}

/// Whether `c` can continue an identifier.
pub open spec fn is_ident_char(c: char) -> bool {
    unicode_alphanumeric(c) || c == '_'
}

/// The index of the first character at or after `i` that cannot continue an identifier, or
/// the length of `s`.
pub open spec fn ident_end(s: Seq<char>, i: int) -> int
    decreases s.len() - i,
{
    if i >= s.len() || !is_ident_char(s[i]) {
        i
    } else {
        ident_end(s, i + 1)
    }
}

/// The kind and length of the lexeme at `p`, other than a line break and a `/` that ends
/// the input.
pub open spec fn lexeme_at(s: Seq<char>, p: int) -> (LexemeKind, int) {
    let c = s[p];
    if c == '(' {
        (LexemeKind::LeftParen, 1)
    } else if c == ')' {
        (LexemeKind::RightParen, 1)
    } else if c == '{' {
        (LexemeKind::LeftBrace, 1)
    } else if c == '}' {
        (LexemeKind::RightBrace, 1)
    } else if c == '[' {
        (LexemeKind::LeftSquare, 1)
    } else if c == ']' {
        (LexemeKind::RightSquare, 1)
    } else if c == '+' {
        (LexemeKind::Plus, 1)
    } else if c == '-' {
        (LexemeKind::Minus, 1)
    } else if c == '*' {
        (LexemeKind::Asterisk, 1)
    } else if c == '/' {
        if s[p + 1] == '/' {
            (LexemeKind::Comment, comment_end(s, p + 2) - p)
        } else {
            (LexemeKind::Slash, 1)
        }
    } else if c == '\t' || unicode_whitespace(c) {
        (LexemeKind::Whitespace, 1)
    } else if unicode_alphabetic(c) {
        (LexemeKind::Identifier, ident_end(s, p + 1) - p)
    } else {
        (LexemeKind::Unknown, 1)
    }
}

/// One step of the lexer from `st`: the next state and the lexeme handed out, if any.
/// After the last character comes one `Eof` lexeme, then nothing. A `/` that ends the input
/// hands out nothing and leaves the state as it is.
pub open spec fn lex_step(st: LexState) -> (LexState, Option<Token>) {
    let s = st.input;
    let p = st.position;
    if p < s.len() {
        if s[p] == '/' && p + 1 >= s.len() {
            (st, None)
        } else if s[p] == '\n' {
            (
                LexState { input: s, position: p + 1, line: st.line + 1, column: 0, finished: st.finished },
                Some(Token { kind: LexemeKind::Whitespace, start: p, len: 1, line: st.line, column: st.column }),
            )
        } else {
            let (kind, len) = lexeme_at(s, p);
            (
                LexState { input: s, position: p + len, line: st.line, column: st.column + len, finished: st.finished },
                Some(Token { kind, start: p, len, line: st.line, column: st.column }),
            )
        }
    } else if st.finished {
        (st, None)
    } else {
        (
            LexState { input: s, position: p, line: st.line, column: st.column, finished: true },
            Some(Token { kind: LexemeKind::Eof, start: s.len() as int, len: 0, line: st.line, column: st.column }),
        )
    }
}

/// Whether the lexeme `x` is the token `t` over the input `s`.
pub open spec fn lexeme_matches(x: Lexeme, s: Seq<char>, t: Token) -> bool {
    &&& x.kind == t.kind
    &&& x.code_span@ == s.subrange(t.start, t.start + t.len)
    &&& x.location.0 == t.line
    &&& x.location.1 == t.column
}

/// Breaks a text into lexemes, one per call.
#[derive(Debug)]
pub struct Lexer<'a> {
    input: &'a str,
    position: usize,
    line_number: usize,
    column_number: usize,
    has_hit_eof: bool,
}

impl<'a> View for Lexer<'a> {
    type V = LexState;

    closed spec fn view(&self) -> LexState {
        LexState {
            input: self.input@,
            position: self.position as int,
            line: self.line_number as int,
            column: self.column_number as int,
            finished: self.has_hit_eof,
        }
    }
}

/// The state that every lexer keeps: counters that stay within the input.
pub open spec fn state_wf(st: LexState) -> bool {
    &&& st.input.len() <= usize::MAX
    &&& 0 <= st.position <= st.input.len()
    &&& 0 <= st.column <= st.position
    &&& 0 <= st.line <= st.position
}

proof fn lemma_comment_end_bounds(s: Seq<char>, i: int)
    requires
        0 <= i <= s.len(),
    ensures
        i <= comment_end(s, i) <= s.len(),
    decreases s.len() - i,
{
    if i < s.len() && s[i] != '\n' {
        lemma_comment_end_bounds(s, i + 1);
    }
}

proof fn lemma_ident_end_bounds(s: Seq<char>, i: int)
    requires
        0 <= i <= s.len(),
    ensures
        i <= ident_end(s, i) <= s.len(),
    decreases s.len() - i,
{
    if i < s.len() && is_ident_char(s[i]) {
        lemma_ident_end_bounds(s, i + 1);
    }
}

impl<'a> Lexer<'a> {
    /// The counters stay within the input.
    pub open spec fn wf(&self) -> bool {
        state_wf(self@)
    }

    /// Hands out the lexeme of `kind` that covers the next `length` characters, on the current line.
    fn lexeme(&mut self, kind: LexemeKind, length: usize) -> (r: Option<Lexeme<'a>>)
        requires
            old(self).wf(),
            old(self)@.position + length <= old(self)@.input.len(),
        ensures
            final(self).wf(),
            final(self)@ == (LexState {
                position: old(self)@.position + length,
                column: old(self)@.column + length,
                ..old(self)@
            }),
            r matches Some(x) && lexeme_matches(x, old(self)@.input, Token {
                kind,
                start: old(self)@.position,
                len: length as int,
                line: old(self)@.line,
                column: old(self)@.column,
            }),
    {
        let input: &'a str = self.input;
        let lexeme = Lexeme {
            kind,
            code_span: input.substring_char(self.position, self.position + length),
            location: (self.line_number, self.column_number),
        };
        self.position = self.position + length;
        self.column_number = self.column_number + length;
        Some(lexeme)
    }

    /// Hands out the line break at the current position and moves to the next line.
    fn new_line(&mut self) -> (r: Option<Lexeme<'a>>)
        requires
            old(self).wf(),
            old(self)@.position < old(self)@.input.len(),
        ensures
            final(self).wf(),
            final(self)@ == (LexState {
                position: old(self)@.position + 1,
                line: old(self)@.line + 1,
                column: 0,
                ..old(self)@
            }),
            r matches Some(x) && lexeme_matches(x, old(self)@.input, Token {
                kind: LexemeKind::Whitespace,
                start: old(self)@.position,
                len: 1,
                line: old(self)@.line,
                column: old(self)@.column,
            }),
    {
        let input: &'a str = self.input;
        let lexeme = Lexeme {
            kind: LexemeKind::Whitespace,
            code_span: input.substring_char(self.position, self.position + 1),
            location: (self.line_number, self.column_number),
        };
        self.position = self.position + 1;
        self.line_number = self.line_number + 1;
        self.column_number = 0;
        Some(lexeme)
    }

    /// A lexer at the start of `input`.
    pub fn new(input: &'a str) -> (r: Lexer<'a>)
        ensures
            r.wf(),
            r@ == (LexState { input: input@, position: 0, line: 0, column: 0, finished: false }),
    {
        // Counting the characters once shows that every position in the input fits a usize.
        let _count = input.unicode_len();
        Lexer { input, position: 0, line_number: 0, column_number: 0, has_hit_eof: false }
    }

    /// The next lexeme, and the lexer moved past it.
    pub fn next_lexeme(&mut self) -> (r: Option<Lexeme<'a>>)
        requires
            old(self).wf(),
        ensures
            final(self).wf(),
            final(self)@ == lex_step(old(self)@).0,
            match lex_step(old(self)@).1 {
                Some(t) => r matches Some(x) && lexeme_matches(x, old(self)@.input, t),
                None => r is None,
            },
    {
        let ghost s = self@.input;
        let n = self.input.unicode_len();
        let p = self.position;
        if p < n {
            let ch = self.input.get_char(p);
            if ch == '(' {
                self.lexeme(LexemeKind::LeftParen, 1)
            } else if ch == ')' {
                self.lexeme(LexemeKind::RightParen, 1)
            } else if ch == '{' {
                self.lexeme(LexemeKind::LeftBrace, 1)
            } else if ch == '}' {
                self.lexeme(LexemeKind::RightBrace, 1)
            } else if ch == '[' {
                self.lexeme(LexemeKind::LeftSquare, 1)
            } else if ch == ']' {
                self.lexeme(LexemeKind::RightSquare, 1)
            } else if ch == '+' {
                self.lexeme(LexemeKind::Plus, 1)
            } else if ch == '-' {
                self.lexeme(LexemeKind::Minus, 1)
            } else if ch == '*' {
                self.lexeme(LexemeKind::Asterisk, 1)
            } else if ch == '/' {
                if p + 1 >= n {
                    return None;
                }
                if self.input.get_char(p + 1) == '/' {
                    let mut j: usize = p + 2;
                    proof { lemma_comment_end_bounds(s, j as int); }
                    while j < n && self.input.get_char(j) != '\n'
                        invariant
                            s == self@.input,
                            n == s.len(),
                            p + 2 <= j <= n,
                            comment_end(s, j as int) == comment_end(s, p + 2),
                        decreases n - j,
                    {
                        j = j + 1;
                    }
                    self.lexeme(LexemeKind::Comment, j - p)
                } else {
                    self.lexeme(LexemeKind::Slash, 1)
                }
            } else if ch == '\n' {
                self.new_line()
            } else if ch == '\t' {
                self.lexeme(LexemeKind::Whitespace, 1)
            } else if is_whitespace(ch) {
                self.lexeme(LexemeKind::Whitespace, 1)
            } else if is_alphabetic(ch) {
                let mut j: usize = p + 1;
                let mut stop = false;
                proof { lemma_ident_end_bounds(s, j as int); }
                while !stop && j < n
                    invariant
                        s == self@.input,
                        n == s.len(),
                        p + 1 <= j <= n,
                        ident_end(s, j as int) == ident_end(s, p + 1),
                        stop ==> j < n && !is_ident_char(s[j as int]),
                    decreases n - j + (if stop { 0int } else { 1int }),
                {
                    let c = self.input.get_char(j);
                    if is_alphanumeric(c) || c == '_' {
                        j = j + 1;
                    } else {
                        stop = true;
                    }
                }
                self.lexeme(LexemeKind::Identifier, j - p)
            } else {
                self.lexeme(LexemeKind::Unknown, 1)
            }
        } else if self.has_hit_eof {
            None
        } else {
            self.has_hit_eof = true;
            let input: &'a str = self.input;
            Some(Lexeme {
                kind: LexemeKind::Eof,
                code_span: input.substring_char(n, n),
                location: (self.line_number, self.column_number),
            })
        }
    }
}

} // verus!
