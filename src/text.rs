//! Small text helpers: appending, comparing and writing numbers.
use vstd::prelude::*;

verus! {

/// Relies on `String::push`: appends one character.
#[verifier::external_body]
pub(crate) fn push_char(s: &mut String, c: char)
    ensures
        final(s)@ == old(s)@.push(c),
{
    s.push(c)
}

/// Whether two texts hold the same characters.
pub fn same_text(a: &str, b: &str) -> (r: bool)
    ensures
        r == (a@ == b@),
{
    let n = a.unicode_len();
    if n != b.unicode_len() {
        return false;
    }
    let mut i: usize = 0;
    while i < n
        invariant
            n == a@.len(),
            n == b@.len(),
            i <= n,
            a@.subrange(0, i as int) == b@.subrange(0, i as int),
        decreases n - i,
    {
        if a.get_char(i) != b.get_char(i) {
            return false;
        }
        proof {
            assert(a@.subrange(0, i + 1) == a@.subrange(0, i as int).push(a@[i as int]));
            assert(b@.subrange(0, i + 1) == b@.subrange(0, i as int).push(b@[i as int]));
        }
        i = i + 1;
    }
    proof {
        assert(a@ == a@.subrange(0, n as int));
        assert(b@ == b@.subrange(0, n as int));
    }
    true
}

/// The decimal digit for `d`, which is below ten.
pub open spec fn digit_char(d: int) -> char {
    (('0' as int) + d) as char
}

/// Decimal digits of `n`, without leading zeros (`0` for zero).
pub open spec fn decimal(n: nat) -> Seq<char>
    decreases n,
{
    if n < 10 {
        seq![digit_char(n as int)]
    } else {
        decimal(n / 10) + seq![digit_char((n % 10) as int)]
    }
}

/// The last `width` decimal digits of `n`, with leading zeros.
pub open spec fn padded(n: nat, width: nat) -> Seq<char>
    decreases width,
{
    if width == 0 {
        Seq::empty()
    } else {
        padded(n / 10, (width - 1) as nat) + seq![digit_char((n % 10) as int)]
    }
}

/// The decimal digit for `d`.
pub fn digit(d: u8) -> (r: char)
    requires
        d < 10,
    ensures
        r == digit_char(d as int),
{
    (d + 48u8) as char
}

/// Appends the decimal digits of `n`.
pub fn push_decimal(s: &mut String, n: u64)
    ensures
        final(s)@ == old(s)@ + decimal(n as nat),
    decreases n,
{
    if n >= 10 {
        push_decimal(s, n / 10);
    }
    push_char(s, digit((n % 10) as u8));
}

/// Appends the last `width` decimal digits of `n`, with leading zeros.
pub fn push_padded(s: &mut String, n: u64, width: u64)
    ensures
        final(s)@ == old(s)@ + padded(n as nat, width as nat),
    decreases width,
{
    if width > 0 {
        push_padded(s, n / 10, width - 1);
        push_char(s, digit((n % 10) as u8));
        proof {
            assert(padded(n as nat, width as nat) == padded((n / 10) as nat, (width - 1) as nat)
                + seq![digit_char((n % 10) as int)]);
        }
    } else {
        proof {
            assert(final(s)@ == old(s)@ + padded(n as nat, width as nat));
        }
    }
}

/// `(n, width)` with trailing zero digits dropped from the `width`-digit
/// number `n`, one digit of width per zero.
pub open spec fn trimmed(n: nat, width: nat) -> (nat, nat)
    decreases width,
{
    if width > 0 && n % 10 == 0 {
        trimmed(n / 10, (width - 1) as nat)
    } else {
        (n, width)
    }
}

/// One million: the number of millionths in a unit.
pub const MILLION: u64 = 1000000;

/// The digits after the point of a fraction of `f` millionths, without
/// trailing zeros, led by the point; nothing for zero.
pub open spec fn fraction_text(f: nat) -> Seq<char> {
    if f == 0 {
        Seq::empty()
    } else {
        seq!['.'] + padded(trimmed(f, 6).0, trimmed(f, 6).1)
    }
}

/// Decimal text of `v` millionths: a sign for negatives, the whole part, and
/// the fraction without trailing zeros (`51403366` gives `51.403366`).
pub open spec fn millionths_text(v: int) -> Seq<char> {
    let a: nat = if v < 0 {
        (-v) as nat
    } else {
        v as nat
    };
    (if v < 0 {
        seq!['-']
    } else {
        Seq::empty()
    }) + decimal(a / (MILLION as nat)) + fraction_text(a % (MILLION as nat))
}

/// Appends `millionths_text(v)`.
pub fn push_millionths(s: &mut String, v: i64)
    ensures
        final(s)@ == old(s)@ + millionths_text(v as int),
{
    let ghost s0 = s@;
    let a: u64 = if v < 0 {
        (0i128 - v as i128) as u64
    } else {
        v as u64
    };
    if v < 0 {
        push_char(s, '-');
    }
    let ghost s1 = s@;
    push_decimal(s, a / MILLION);
    let ghost s2 = s@;
    let f = a % MILLION;
    if f != 0 {
        push_char(s, '.');
        let mut g: u64 = f;
        let mut w: u64 = 6;
        while w > 0 && g % 10 == 0
            invariant
                trimmed(g as nat, w as nat) == trimmed(f as nat, 6),
            decreases w,
        {
            g = g / 10;
            w = w - 1;
        }
        push_padded(s, g, w);
    }
    proof {
        assert(s@ == s0 + millionths_text(v as int));
    }
}

} // verus!
