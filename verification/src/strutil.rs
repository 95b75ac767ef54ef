//! Verified text helpers: decimal and hexadecimal rendering, zero-padded
//! fields, and conversions between `&str`, `Vec<char>` and `String`.
use vstd::prelude::*;

verus! {

/// The decimal digit character for `d` (0 to 9).
pub open spec fn dec_digit(d: int) -> char {
    if d == 0 {
        '0'
    } else if d == 1 {
        '1'
    } else if d == 2 {
        '2'
    } else if d == 3 {
        '3'
    } else if d == 4 {
        '4'
    } else if d == 5 {
        '5'
    } else if d == 6 {
        '6'
    } else if d == 7 {
        '7'
    } else if d == 8 {
        '8'
    } else {
        '9'
    }
}

/// The decimal digits of `n`, most significant first, no sign and no padding.
pub open spec fn u_dec(n: nat) -> Seq<char>
    decreases n,
{
    if n < 10 {
        seq![dec_digit(n as int)]
    } else {
        u_dec(n / 10).push(dec_digit((n % 10) as int))
    }
}

/// The decimal text of `i`, with a leading minus sign when negative.
pub open spec fn i_dec(i: int) -> Seq<char> {
    if i < 0 {
        seq!['-'] + u_dec((-i) as nat)
    } else {
        u_dec(i as nat)
    }
}

/// The uppercase hexadecimal digit character for `d` (0 to 15).
pub open spec fn hex_digit(d: int) -> char {
    if d < 10 {
        dec_digit(d)
    } else if d == 10 {
        'A'
    } else if d == 11 {
        'B'
    } else if d == 12 {
        'C'
    } else if d == 13 {
        'D'
    } else if d == 14 {
        'E'
    } else {
        'F'
    }
}

/// Two uppercase hexadecimal digits for every byte, in order.
pub open spec fn hex_text(b: Seq<u8>) -> Seq<char>
    decreases b.len(),
{
    if b.len() == 0 {
        Seq::empty()
    } else {
        seq![hex_digit(b[0] as int / 16), hex_digit(b[0] as int % 16)] + hex_text(b.drop_first())
    }
}

/// `n` as exactly two decimal digits (`n` below 100).
pub open spec fn pad2(n: int) -> Seq<char> {
    seq![dec_digit(n / 10), dec_digit(n % 10)]
}

/// `n` as exactly three decimal digits (`n` below 1000).
pub open spec fn pad3(n: int) -> Seq<char> {
    seq![dec_digit(n / 100), dec_digit((n / 10) % 10), dec_digit(n % 10)]
}

/// `n` as exactly four decimal digits (`n` below 10000).
pub open spec fn pad4(n: int) -> Seq<char> {
    seq![dec_digit(n / 1000), dec_digit((n / 100) % 10), dec_digit((n / 10) % 10), dec_digit(n % 10)]
}

pub fn digit_char(d: u8) -> (c: char)
    requires
        d < 10,
    ensures
        c == dec_digit(d as int),
{
    if d == 0 {
        '0'
    } else if d == 1 {
        '1'
    } else if d == 2 {
        '2'
    } else if d == 3 {
        '3'
    } else if d == 4 {
        '4'
    } else if d == 5 {
        '5'
    } else if d == 6 {
        '6'
    } else if d == 7 {
        '7'
    } else if d == 8 {
        '8'
    } else {
        '9'
    }
}

pub fn hex_char(d: u8) -> (c: char)
    requires
        d < 16,
    ensures
        c == hex_digit(d as int),
{
    if d < 10 {
        digit_char(d)
    } else if d == 10 {
        'A'
    } else if d == 11 {
        'B'
    } else if d == 12 {
        'C'
    } else if d == 13 {
        'D'
    } else if d == 14 {
        'E'
    } else {
        'F'
    }
}

/// Appends the decimal digits of `n` to `out`.
pub fn push_u64_dec(out: &mut Vec<char>, n: u64)
    ensures
        final(out)@ == old(out)@ + u_dec(n as nat),
{
    if n == 0 {
        out.push('0');
        assert(out@ =~= old(out)@ + u_dec(0));
        return ;
    }
    let mut digits: Vec<char> = Vec::new();
    let mut m = n;
    while m > 0
        invariant
            m > 0 ==> u_dec(n as nat) == u_dec(m as nat) + digits@,
            m == 0 ==> u_dec(n as nat) == digits@,
        decreases m,
    {
        let ghost pre = digits@;
        let ghost digit = dec_digit((m % 10) as int);
        let d = (m % 10) as u8;
        digits.insert(0, digit_char(d));
        proof {
            assert(digits@ =~= seq![digit] + pre);
            if m >= 10 {
                assert(u_dec(m as nat) == u_dec((m as nat) / 10).push(digit));
                assert(u_dec((m as nat) / 10).push(digit) =~= u_dec((m as nat) / 10) + seq![digit]);
                assert(u_dec(m as nat) + pre =~= u_dec((m as nat) / 10) + digits@);
                assert((m as nat) / 10 == (m / 10) as nat);
            } else {
                assert(u_dec(m as nat) =~= seq![digit]);
                assert(u_dec(m as nat) + pre =~= digits@);
            }
        }
        m = m / 10;
    }
    let mut k: usize = 0;
    let ghost start = out@;
    while k < digits.len()
        invariant
            k <= digits.len(),
            out@ == start + digits@.subrange(0, k as int),
        decreases digits.len() - k,
    {
        out.push(digits[k]);
        proof {
            assert(out@ =~= start + digits@.subrange(0, k + 1 as int));
        }
        k = k + 1;
    }
    proof {
        assert(digits@.subrange(0, digits@.len() as int) =~= digits@);
    }
}

/// Appends the decimal text of `i`, sign included, to `out`.
pub fn push_i64_dec(out: &mut Vec<char>, i: i64)
    ensures
        final(out)@ == old(out)@ + i_dec(i as int),
{
    if i < 0 {
        out.push('-');
        let m: u64 = if i == i64::MIN {
            9223372036854775808u64
        } else {
            (-i) as u64
        };
        assert(m as nat == (-(i as int)) as nat);
        let ghost mid = out@;
        push_u64_dec(out, m);
        assert(out@ =~= old(out)@ + i_dec(i as int));
    } else {
        push_u64_dec(out, i as u64);
    }
}

/// Appends two uppercase hexadecimal digits for each byte of `b` to `out`.
pub fn push_hex(out: &mut Vec<char>, b: &Vec<u8>)
    ensures
        final(out)@ == old(out)@ + hex_text(b@),
{
    let mut k: usize = 0;
    proof {
        assert(b@.skip(0) =~= b@);
    }
    while k < b.len()
        invariant
            k <= b.len(),
            out@ + hex_text(b@.skip(k as int)) == old(out)@ + hex_text(b@),
        decreases b.len() - k,
    {
        let byte = b[k];
        out.push(hex_char(byte / 16));
        out.push(hex_char(byte % 16));
        proof {
            let s = b@.skip(k as int);
            assert(s[0] == b@[k as int]);
            assert(s.drop_first() =~= b@.skip(k + 1 as int));
            assert(hex_text(s) =~= seq![
                hex_digit(s[0] as int / 16),
                hex_digit(s[0] as int % 16),
            ] + hex_text(s.drop_first()));
        }
        k = k + 1;
    }
    proof {
        assert(b@.skip(b@.len() as int) =~= Seq::<u8>::empty());
        assert(hex_text(Seq::<u8>::empty()) =~= Seq::<char>::empty());
        assert(out@ =~= out@ + Seq::<char>::empty());
    }
}

/// Appends `n` as two zero-padded decimal digits to `out`.
pub fn push_pad2(out: &mut Vec<char>, n: u32)
    requires
        n < 100,
    ensures
        final(out)@ == old(out)@ + pad2(n as int),
{
    out.push(digit_char((n / 10) as u8));
    out.push(digit_char((n % 10) as u8));
    assert(out@ =~= old(out)@ + pad2(n as int));
}

/// Appends `n` as three zero-padded decimal digits to `out`.
pub fn push_pad3(out: &mut Vec<char>, n: u32)
    requires
        n < 1000,
    ensures
        final(out)@ == old(out)@ + pad3(n as int),
{
    out.push(digit_char((n / 100) as u8));
    out.push(digit_char(((n / 10) % 10) as u8));
    out.push(digit_char((n % 10) as u8));
    assert(out@ =~= old(out)@ + pad3(n as int));
}

/// Appends `n` as four zero-padded decimal digits to `out`.
pub fn push_pad4(out: &mut Vec<char>, n: u32)
    requires
        n < 10000,
    ensures
        final(out)@ == old(out)@ + pad4(n as int),
{
    out.push(digit_char((n / 1000) as u8));
    out.push(digit_char(((n / 100) % 10) as u8));
    out.push(digit_char(((n / 10) % 10) as u8));
    out.push(digit_char((n % 10) as u8));
    assert(out@ =~= old(out)@ + pad4(n as int));
}

/// The characters of `text`, in order.
pub fn chars_of(text: &str) -> (v: Vec<char>)
    ensures
        v@ == text@,
{
    let n = text.unicode_len();
    let mut v: Vec<char> = Vec::new();
    let mut i: usize = 0;
    while i < n
        invariant
            i <= n,
            n == text@.len(),
            v@ == text@.subrange(0, i as int),
        decreases n - i,
    {
        v.push(text.get_char(i));
        proof {
            assert(v@ =~= text@.subrange(0, i + 1 as int));
        }
        i = i + 1;
    }
    proof {
        assert(text@.subrange(0, text@.len() as int) =~= text@);
    }
    v
}

/// Relies on String's FromIterator over char: collecting the characters of
/// `v` yields a string with exactly those characters.
#[verifier::external_body]
pub(crate) fn string_from_chars(v: &Vec<char>) -> (r: String)
    ensures
        r@ == v@,
{
    v.iter().collect()
}

/// What `String::from_utf8_lossy` decodes a byte sequence to; the result
/// depends on the bytes alone.
pub uninterp spec fn utf8_lossy_of(b: Seq<u8>) -> Seq<char>;

/// Relies on `String::from_utf8_lossy`: decodes UTF-8, substituting the
/// replacement character for invalid sequences, from the bytes alone.
#[verifier::external_body]
pub(crate) fn utf8_lossy(b: &Vec<u8>) -> (r: String)
    ensures
        r@ == utf8_lossy_of(b@),
{
    String::from_utf8_lossy(b).to_string()
}

} // verus!
