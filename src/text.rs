//! Text building blocks: joining, hexadecimal and decimal rendering.
use vstd::prelude::*;

verus! {

/// The parts joined, with `sep` between each neighbouring pair.
pub open spec fn join(parts: Seq<Seq<char>>, sep: Seq<char>) -> Seq<char>
    decreases parts.len(),
{
    if parts.len() == 0 {
        Seq::empty()
    } else if parts.len() == 1 {
        parts[0]
    } else {
        join(parts.drop_last(), sep) + sep + parts.last()
    }
}

/// The lower-case hexadecimal digit of `d` (taken modulo 16).
pub open spec fn hex_digit(d: nat) -> char {
    let d = d % 16;
    if d < 10 {
        ((d + '0' as nat) as u8) as char
    } else {
        ((d - 10 + 'a' as nat) as u8) as char
    }
}

/// `n` in lower-case hexadecimal, without leading zeros.
pub open spec fn hex(n: nat) -> Seq<char>
    decreases n,
{
    if n < 16 {
        seq![hex_digit(n)]
    } else {
        hex(n / 16) + seq![hex_digit(n % 16)]
    }
}

/// The low `w` hexadecimal digits of `n`, zero-padded to exactly `w` digits.
pub open spec fn hex_fixed(n: nat, w: nat) -> Seq<char>
    decreases w,
{
    if w == 0 {
        Seq::empty()
    } else {
        hex_fixed(n / 16, (w - 1) as nat) + seq![hex_digit(n % 16)]
    }
}

/// `n` in decimal, without leading zeros.
pub open spec fn dec(n: nat) -> Seq<char>
    decreases n,
{
    if n < 10 {
        seq![hex_digit(n)]
    } else {
        dec(n / 10) + seq![hex_digit(n % 10)]
    }
}

/// Joins `parts` with `sep` between neighbours.
pub fn join_strings(parts: &Vec<String>, sep: &str) -> (r: String)
    ensures
        r@ == join(parts.deep_view(), sep@),
{
    let mut r = String::new();
    let mut i: usize = 0;
    while i < parts.len()
        invariant
            i <= parts.len(),
            r@ == join(parts.deep_view().take(i as int), sep@),
        decreases parts.len() - i,
    {
        proof {
            let t = parts.deep_view().take(i as int + 1);
            assert(t.drop_last() =~= parts.deep_view().take(i as int));
            assert(t.last() == parts[i as int]@);
        }
        if i > 0 {
            r.append(sep);
        } else {
            assert(parts.deep_view().take(1) =~= seq![parts[0]@]);
            assert(r@ =~= Seq::<char>::empty());
        }
        r.append(parts[i].as_str());
        i = i + 1;
        proof {
            let t = parts.deep_view().take(i as int);
            if i > 1 {
                assert(r@ =~= join(t.drop_last(), sep@) + sep@ + t.last());
            } else {
                assert(r@ =~= join(t, sep@));
            }
        }
    }
    assert(parts.deep_view().take(parts.len() as int) =~= parts.deep_view());
    r
}

/// The one-character string of hexadecimal digit `d`.
fn digit_string(d: u32) -> (r: String)
    requires
        d < 16,
    ensures
        r@ == seq![hex_digit(d as nat)],
{
    let c: char = if d < 10 {
        ((d as u8) + 48u8) as char
    } else {
        ((d as u8) - 10 + 97u8) as char
    };
    let mut s = String::new();
    push_char(&mut s, c);
    s
}

/// Relies on `String::push`: appends one character to the string.
#[verifier::external_body]
fn push_char(s: &mut String, c: char)
    ensures
        final(s)@ == old(s)@.push(c),
{
    s.push(c);
}

/// `n` in lower-case hexadecimal, without leading zeros.
pub fn hex_string(n: u32) -> (r: String)
    ensures
        r@ == hex(n as nat),
    decreases n,
{
    if n < 16 {
        digit_string(n)
    } else {
        let mut s = hex_string(n / 16);
        let d = digit_string(n % 16);
        s.append(d.as_str());
        s
    }
}

/// The low `w` hexadecimal digits of `n`, zero-padded.
pub fn hex_fixed_string(n: u32, w: u32) -> (r: String)
    ensures
        r@ == hex_fixed(n as nat, w as nat),
    decreases w,
{
    if w == 0 {
        String::new()
    } else {
        let mut s = hex_fixed_string(n / 16, w - 1);
        let d = digit_string(n % 16);
        s.append(d.as_str());
        s
    }
}

/// `n` in decimal, without leading zeros.
pub fn dec_string(n: u64) -> (r: String)
    ensures
        r@ == dec(n as nat),
    decreases n,
{
    if n < 10 {
        digit_string(n as u32)
    } else {
        let mut s = dec_string(n / 10);
        let d = digit_string((n % 10) as u32);
        s.append(d.as_str());
        s
    }
}

} // verus!
