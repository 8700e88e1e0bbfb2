//! Building blocks for rendering text: characters, decimal and hexadecimal
//! numbers, and separated lists.
use vstd::prelude::*;

verus! {

/// Relies on `String::push`: appends one character at the end.
#[verifier::external_body]
pub(crate) fn push_char(s: &mut String, c: char)
    ensures
        final(s)@ == old(s)@.push(c),
{
    s.push(c)
}

/// Relies on `String::insert` at position zero: prepends one character.
#[verifier::external_body]
pub(crate) fn prepend_char(s: &mut String, c: char)
    ensures
        final(s)@ == seq![c] + old(s)@,
{
    s.insert(0, c)
}

/// The character for a digit below sixteen: `0`-`9`, then `a`-`f`.
pub open spec fn digit_char(d: nat) -> char {
    if d < 10 {
        ((48 + d) as u8) as char
    } else {
        ((87 + d) as u8) as char
    }
}

/// The base of the notation: sixteen when `hex`, else ten.
pub open spec fn base_of(hex: bool) -> nat {
    if hex {
        16
    } else {
        10
    }
}

/// The digits of `n` in hexadecimal (when `hex`) or decimal, most
/// significant first, without leading zeros.
pub open spec fn radix(n: nat, hex: bool) -> Seq<char>
    decreases n,
{
    if n < base_of(hex) {
        seq![digit_char(n)]
    } else if hex {
        radix(n / 16, hex) + seq![digit_char(n % 16)]
    } else {
        radix(n / 10, hex) + seq![digit_char(n % 10)]
    }
}

/// Decimal notation of a signed number.
pub open spec fn signed_decimal(v: int) -> Seq<char> {
    if v < 0 {
        seq!['-'] + radix((-v) as nat, false)
    } else {
        radix(v as nat, false)
    }
}

/// Parts laid end to end with `sep` between each two.
pub open spec fn joined(parts: Seq<Seq<char>>, sep: Seq<char>) -> Seq<char>
    decreases parts.len(),
{
    if parts.len() == 0 {
        Seq::empty()
    } else if parts.len() == 1 {
        parts[0]
    } else {
        joined(parts.drop_last(), sep) + sep + parts.last()
    }
}

/// The character sequences of a list of strings.
pub open spec fn views(v: Seq<String>) -> Seq<Seq<char>> {
    v.map_values(|s: String| s@)
}

/// Writes `n` in hexadecimal (when `hex`) or decimal, with lower-case digits.
pub fn render_radix(n: u64, hex: bool) -> (r: String)
    ensures
        r@ == radix(n as nat, hex),
{
    let base: u64 = if hex {
        16
    } else {
        10
    };
    let mut m = n;
    let mut res = String::new();
    loop
        invariant
            base == base_of(hex),
            radix(n as nat, hex) == radix(m as nat, hex) + res@,
        decreases m,
    {
        let d = m % base;
        let ch = if d < 10 {
            (48u8 + d as u8) as char
        } else {
            (87u8 + d as u8) as char
        };
        assert(ch == digit_char(d as nat));
        let ghost before = res@;
        prepend_char(&mut res, ch);
        if m < base {
            assert(radix(m as nat, hex) == seq![digit_char(m as nat)]);
            assert(res@ =~= radix(n as nat, hex));
            return res;
        }
        assert(radix(m as nat, hex) == radix((m / base) as nat, hex) + seq![
            digit_char((m % base) as nat),
        ]);
        assert(radix(m as nat, hex) + before =~= radix((m / base) as nat, hex) + res@);
        m = m / base;
    }
}

/// Writes a signed number in decimal, with a leading `-` when negative.
pub fn render_signed(v: i64) -> (r: String)
    ensures
        r@ == signed_decimal(v as int),
{
    if v < 0 {
        let mag = (-(v as i128)) as u64;
        let digits = render_radix(mag, false);
        let mut res = String::new();
        push_char(&mut res, '-');
        res.append(digits.as_str());
        assert(res@ =~= signed_decimal(v as int));
        res
    } else {
        render_radix(v as u64, false)
    }
}

/// Relies on `itertools::Itertools::join`: the items in order, with the
/// separator between each two.
#[verifier::external_body]
pub(crate) fn join_strings(parts: &Vec<String>, sep: &str) -> (r: String)
    ensures
        r@ == joined(views(parts@), sep@),
{
    itertools::Itertools::join(&mut parts.iter(), sep)
}

} // verus!
