use vstd::prelude::*;
use vstd::utf8::{encode_scalar, encode_utf8};

use crate::newline::{CR, LF};

verus! {

/// Escape.
pub const ESC: u8 = 27;

/// Backspace: moves the terminal cursor one column left.
pub const BS: u8 = 8;

/// The ASCII digits of `n`, most significant first.
pub open spec fn decimal(n: nat) -> Seq<u8>
    decreases n,
{
    if n < 10 {
        seq![(48 + n) as u8]
    } else {
        decimal(n / 10).push((48 + n % 10) as u8)
    }
}

/// A control sequence: escape, `[`, the optional numeric parameter in decimal
/// and the final byte.
pub open spec fn csi(param: Option<nat>, last: u8) -> Seq<u8> {
    match param {
        Some(n) => seq![ESC, 91u8] + decimal(n) + seq![last],
        None => seq![ESC, 91u8, last],
    }
}

/// What the terminal is sent when `bytes` are echoed: a line feed always
/// becomes a carriage return and a line feed; any other byte is sent only
/// when `echo` is on.
pub open spec fn echoed(bytes: Seq<u8>, echo: bool) -> Seq<u8>
    decreases bytes.len(),
{
    if bytes.len() == 0 {
        seq![]
    } else {
        let prev = echoed(bytes.drop_last(), echo);
        if bytes.last() == LF {
            prev + seq![CR, LF]
        } else if echo {
            prev.push(bytes.last())
        } else {
            prev
        }
    }
}

/// Appends the decimal digits of `n` to `out`.
pub fn push_decimal(n: usize, out: &mut Vec<u8>)
    ensures
        final(out)@ == old(out)@ + decimal(n as nat),
    decreases n,
{
    if n >= 10 {
        push_decimal(n / 10, out);
    }
    let d: u8 = (n % 10) as u8;
    out.push(48u8 + d);
}

/// Appends the control sequence `csi(param, last)` to `out`.
pub fn push_csi(param: Option<usize>, last: u8, out: &mut Vec<u8>)
    ensures
        final(out)@ == old(out)@ + csi(
            match param {
                Some(n) => Some(n as nat),
                None => None,
            },
            last,
        ),
{
    out.push(ESC);
    out.push(91u8);
    match param {
        Some(n) => {
            push_decimal(n, out);
        },
        None => {},
    }
    out.push(last);
}

/// Returns the control sequence `csi(param, last)`.
pub fn make_csi(param: Option<usize>, last: u8) -> (r: Vec<u8>)
    ensures
        r@ == csi(
            match param {
                Some(n) => Some(n as nat),
                None => None,
            },
            last,
        ),
{
    let mut r: Vec<u8> = Vec::new();
    push_csi(param, last, &mut r);
    r
}

/// Appends the UTF-8 encoding of `c` to `out`.
pub fn push_utf8(c: char, out: &mut Vec<u8>)
    ensures
        final(out)@ == old(out)@ + encode_scalar(c as u32),
{
    proof {
        vstd::utf8::char_is_scalar(c);
    }
    let v: u32 = c as u32;
    if v <= 0x7F {
        out.push((v & 0x7F) as u8);
    } else if v <= 0x7FF {
        out.push(0xC0 | ((v >> 6) & 0x1F) as u8);
        out.push(0x80 | (v & 0x3F) as u8);
    } else if v <= 0xFFFF {
        out.push(0xE0 | ((v >> 12) & 0x0F) as u8);
        out.push(0x80 | ((v >> 6) & 0x3F) as u8);
        out.push(0x80 | (v & 0x3F) as u8);
    } else {
        out.push(0xF0 | ((v >> 18) & 0x7) as u8);
        out.push(0x80 | ((v >> 12) & 0x3F) as u8);
        out.push(0x80 | ((v >> 6) & 0x3F) as u8);
        out.push(0x80 | (v & 0x3F) as u8);
    }
}

/// Appends `bytes` to `out`.
pub fn push_all(bytes: &[u8], out: &mut Vec<u8>)
    ensures
        final(out)@ == old(out)@ + bytes@,
{
    let ghost start = out@;
    out.extend_from_slice(bytes);
    assert(out@ == start + bytes@);
}

/// Appends what the terminal is sent when `bytes` are echoed (see `echoed`).
pub fn push_echoed(bytes: &[u8], echo: bool, out: &mut Vec<u8>)
    ensures
        final(out)@ == old(out)@ + echoed(bytes@, echo),
{
    let ghost start = out@;
    let mut i: usize = 0;
    while i < bytes.len()
        invariant
            i <= bytes@.len(),
            out@ == start + echoed(bytes@.subrange(0, i as int), echo),
        decreases bytes@.len() - i,
    {
        assert(bytes@.subrange(0, i as int + 1).drop_last() == bytes@.subrange(0, i as int));
        let b = bytes[i];
        if b == LF {
            out.push(CR);
            out.push(LF);
        } else if echo {
            out.push(b);
        }
        i = i + 1;
    }
    assert(bytes@.subrange(0, bytes@.len() as int) == bytes@);
}

/// Returns the UTF-8 encoding of `s`.
pub fn utf8_bytes(s: &str) -> (r: Vec<u8>)
    ensures
        r@ == encode_utf8(s@),
{
    let mut r: Vec<u8> = Vec::new();
    push_all(s.as_bytes(), &mut r);
    r
}

} // verus!
