use vstd::prelude::*;
use vstd::string::{StrSliceExecFns, StringExecFns};

verus! {

/// The lowercase hexadecimal digit for `d` (0..16).
pub open spec fn hex_digit(d: int) -> char {
    "0123456789abcdef"@[d]
}

/// `n` in lowercase hexadecimal, without leading zeros (zero is `0`).
pub open spec fn hex_spec(n: nat) -> Seq<char>
    decreases n,
{
    if n < 16 {
        seq![hex_digit(n as int)]
    } else {
        hex_spec(n / 16).push(hex_digit((n % 16) as int))
    }
}

/// The words `ws` in hexadecimal, separated by single commas.
pub open spec fn join_hex(ws: Seq<u32>) -> Seq<char>
    decreases ws.len(),
{
    if ws.len() == 0 {
        Seq::empty()
    } else if ws.len() == 1 {
        hex_spec(ws[0] as nat)
    } else {
        join_hex(ws.drop_last()) + seq![','] + hex_spec(ws.last() as nat)
    }
}

fn push_hex(out: &mut String, n: u32)
    ensures
        final(out)@ == old(out)@ + hex_spec(n as nat),
    decreases n,
{
    if n >= 16 {
        push_hex(out, n / 16);
    }
    let d = (n % 16) as usize;
    proof { reveal_strlit("0123456789abcdef"); }
    let digit = "0123456789abcdef".substring_char(d, d + 1);
    assert(digit@ =~= seq![hex_digit(d as int)]);
    out.append(digit);
    assert(final(out)@ =~= old(out)@ + hex_spec(n as nat));
}

/// The word `w` in lowercase hexadecimal, without leading zeros.
pub fn hex_word(w: u32) -> (r: String)
    ensures
        r@ == hex_spec(w as nat),
{
    let mut out = String::new();
    push_hex(&mut out, w);
    assert(out@ =~= hex_spec(w as nat));
    out
}

/// The words `ws` in lowercase hexadecimal, without leading zeros, joined by commas.
pub fn render_words(ws: &Vec<u32>) -> (r: String)
    ensures
        r@ == join_hex(ws@),
{
    let mut out = String::new();
    let mut i: usize = 0;
    while i < ws.len()
        invariant
            i <= ws@.len(),
            out@ == join_hex(ws@.subrange(0, i as int)),
        decreases ws@.len() - i,
    {
        let ghost prefix = ws@.subrange(0, i + 1);
        assert(prefix.drop_last() =~= ws@.subrange(0, i as int));
        assert(prefix.last() == ws@[i as int]);
        proof { reveal_strlit(","); }
        if i > 0 {
            out.append(",");
        }
        push_hex(&mut out, ws[i]);
        assert(out@ =~= join_hex(prefix));
        i = i + 1;
    }
    assert(ws@.subrange(0, ws@.len() as int) =~= ws@);
    out
}

} // verus!
