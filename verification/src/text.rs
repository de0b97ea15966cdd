//! Text as the probes write it: decimal and hexadecimal digits, and UTF-16 both ways.

use vstd::prelude::*;

verus! {

/// `String::push` appends the given character to the end of the string.
pub assume_specification[ String::push ](s: &mut String, ch: char)
    ensures
        final(s)@ == old(s)@.push(ch),
;

/// `char::from_u32` gives the character of a code point, and nothing for a number that is no
/// Unicode scalar value: a surrogate, or one above `0x10FFFF`.
pub assume_specification[ char::from_u32 ](i: u32) -> (r: Option<char>)
    ensures
        r is Some <==> (i <= 0xD7FF || 0xE000 <= i <= 0x10FFFF),
        r matches Some(c) ==> c as u32 == i,
;

/// The characters of an optional text.
pub open spec fn opt_text(o: Option<String>) -> Option<Seq<char>> {
    match o {
        Some(s) => Some(s@),
        None => None,
    }
}

/// The characters of an optional borrowed text.
pub open spec fn opt_str(o: Option<&str>) -> Option<Seq<char>> {
    match o {
        Some(s) => Some(s@),
        None => None,
    }
}

/// The number of an optional one.
pub open spec fn opt_int(o: Option<u64>) -> Option<int> {
    match o {
        Some(n) => Some(n as int),
        None => None,
    }
}

/// A copy of an optional text.
pub fn copy_text(o: &Option<String>) -> (r: Option<String>)
    ensures
        r == *o,
{
    match o {
        Some(s) => Some(s.clone()),
        None => None,
    }
}

/// A text in the quoted and escaped form that `{:?}` shows.
pub uninterp spec fn debug_text(s: Seq<char>) -> Seq<char>;

/// `format!` with `{:?}` on a string, as std's `Debug` of `str` shows it. Which characters it
/// escapes, and how, is left to std.
#[verifier::external_body]
pub(crate) fn debug_str(s: &str) -> (r: String)
    ensures
        r@ == debug_text(s@),
{
    format!("{s:?}")
}

// ---------------------------------------------------------------------------------------------
// Digits
// ---------------------------------------------------------------------------------------------

/// The lower-case digit of a value below sixteen.
pub open spec fn digit(d: int) -> char {
    if d == 0 { '0' } else if d == 1 { '1' } else if d == 2 { '2' } else if d == 3 { '3' }
    else if d == 4 { '4' } else if d == 5 { '5' } else if d == 6 { '6' } else if d == 7 { '7' }
    else if d == 8 { '8' } else if d == 9 { '9' } else if d == 10 { 'a' } else if d == 11 { 'b' }
    else if d == 12 { 'c' } else if d == 13 { 'd' } else if d == 14 { 'e' } else { 'f' }
}

/// The hexadecimal digit of a value below sixteen, in the case asked for.
pub open spec fn hex_digit(d: int, upper: bool) -> char {
    if !upper { digit(d) }
    else if d == 10 { 'A' } else if d == 11 { 'B' } else if d == 12 { 'C' } else if d == 13 { 'D' }
    else if d == 14 { 'E' } else if d == 15 { 'F' } else { digit(d) }
}

/// The decimal digits of a number, without leading zeros.
pub open spec fn decimal(n: nat) -> Seq<char>
    decreases n,
{
    if n < 10 {
        seq![digit(n as int)]
    } else {
        decimal(n / 10).push(digit((n % 10) as int))
    }
}

/// The hexadecimal digits of a number, without leading zeros.
pub open spec fn hexadecimal(n: nat, upper: bool) -> Seq<char>
    decreases n,
{
    if n < 16 {
        seq![hex_digit(n as int, upper)]
    } else {
        hexadecimal(n / 16, upper).push(hex_digit((n % 16) as int, upper))
    }
}

/// Digits with zeros in front up to a least width.
pub open spec fn padded(digits: Seq<char>, width: nat) -> Seq<char> {
    if digits.len() >= width {
        digits
    } else {
        Seq::new((width - digits.len()) as nat, |i: int| '0') + digits
    }
}

/// Two lower-case hexadecimal digits for each byte.
pub open spec fn hex_of(bytes: Seq<u8>) -> Seq<char> {
    Seq::new(
        2 * bytes.len(),
        |i: int|
            if i % 2 == 0 {
                digit(bytes[i / 2] as int / 16)
            } else {
                digit(bytes[i / 2] as int % 16)
            },
    )
}

fn digit_char(d: u8) -> (c: char)
    requires
        d < 16,
    ensures
        c == digit(d as int),
{
    match d {
        0 => '0',
        1 => '1',
        2 => '2',
        3 => '3',
        4 => '4',
        5 => '5',
        6 => '6',
        7 => '7',
        8 => '8',
        9 => '9',
        10 => 'a',
        11 => 'b',
        12 => 'c',
        13 => 'd',
        14 => 'e',
        _ => 'f',
    }
}

fn hex_digit_char(d: u8, upper: bool) -> (c: char)
    requires
        d < 16,
    ensures
        c == hex_digit(d as int, upper),
{
    if upper {
        match d {
            10 => 'A',
            11 => 'B',
            12 => 'C',
            13 => 'D',
            14 => 'E',
            15 => 'F',
            _ => digit_char(d),
        }
    } else {
        digit_char(d)
    }
}

/// Appends the decimal digits of a number.
pub fn push_decimal(out: &mut String, n: u64)
    ensures
        final(out)@ == old(out)@ + decimal(n as nat),
    decreases n,
{
    if n >= 10 {
        push_decimal(out, n / 10);
    }
    out.push(digit_char((n % 10) as u8));
    proof {
        reveal_with_fuel(decimal, 2);
        assert(out@ =~= old(out)@ + decimal(n as nat));
    }
}

/// Appends the hexadecimal digits of a number, with zeros in front up to `width` digits.
pub fn push_hex(out: &mut String, n: u64, width: u32, upper: bool)
    ensures
        final(out)@ == old(out)@ + padded(hexadecimal(n as nat, upper), width as nat),
    decreases n, width,
{
    if n >= 16 {
        let shorter: u32 = if width > 0 { width - 1 } else { 0 };
        push_hex(out, n / 16, shorter, upper);
        out.push(hex_digit_char((n % 16) as u8, upper));
        proof {
            let front = hexadecimal(n as nat / 16, upper);
            let last = hex_digit((n % 16) as int, upper);
            lemma_hexadecimal_nonempty(n as nat / 16, upper);
            assert(hexadecimal(n as nat, upper) == front.push(last));
            assert(padded(front, shorter as nat).push(last) =~= padded(
                front.push(last),
                width as nat,
            ));
            assert(out@ =~= old(out)@ + padded(hexadecimal(n as nat, upper), width as nat));
        }
    } else if width > 1 {
        out.push('0');
        push_hex(out, n, width - 1, upper);
        proof {
            let digits = hexadecimal(n as nat, upper);
            assert(seq!['0'] + padded(digits, (width - 1) as nat) =~= padded(digits, width as nat));
            assert(out@ =~= old(out)@ + padded(digits, width as nat));
        }
    } else {
        out.push(hex_digit_char(n as u8, upper));
        assert(out@ =~= old(out)@ + padded(hexadecimal(n as nat, upper), width as nat));
    }
}

/// A number has at least one hexadecimal digit.
proof fn lemma_hexadecimal_nonempty(n: nat, upper: bool)
    ensures
        hexadecimal(n, upper).len() >= 1,
{
}

/// Lower-case hexadecimal text of bytes, two digits for each.
pub fn hex(bytes: &[u8]) -> (r: String)
    ensures
        r@ == hex_of(bytes@),
{
    let mut out = String::new();
    let mut i: usize = 0;
    while i < bytes.len()
        invariant
            i <= bytes@.len(),
            out@ == hex_of(bytes@.take(i as int)),
        decreases bytes@.len() - i,
    {
        let b: u8 = bytes[i];
        out.push(digit_char(b / 16));
        out.push(digit_char(b % 16));
        proof {
            let now = bytes@.take(i + 1);
            assert forall|k: int| 0 <= k < 2 * (i + 1) implies out@[k] == hex_of(now)[k] by {
                if k < 2 * i {
                    assert(hex_of(bytes@.take(i as int))[k] == out@[k]);
                    assert(k / 2 < i);
                } else {
                    assert(k / 2 == i);
                }
            }
            assert(out@ =~= hex_of(now));
        }
        i = i + 1;
    }
    assert(bytes@.take(i as int) =~= bytes@);
    out
}

// ---------------------------------------------------------------------------------------------
// UTF-16
// ---------------------------------------------------------------------------------------------

/// The UTF-16 code units of one character: itself, or a surrogate pair.
pub open spec fn utf16_char(c: char) -> Seq<u16> {
    let v = c as int;
    if v < 0x10000 {
        seq![v as u16]
    } else {
        seq![(0xD800 + (v - 0x10000) / 0x400) as u16, (0xDC00 + (v - 0x10000) % 0x400) as u16]
    }
}

/// The UTF-16 code units of a text.
pub open spec fn utf16(s: Seq<char>) -> Seq<u16>
    decreases s.len(),
{
    if s.len() == 0 {
        Seq::empty()
    } else {
        utf16_char(s[0]) + utf16(s.skip(1))
    }
}

pub open spec fn high_surrogate(u: u16) -> bool {
    0xD800 <= u <= 0xDBFF
}

pub open spec fn low_surrogate(u: u16) -> bool {
    0xDC00 <= u <= 0xDFFF
}

/// The text of UTF-16 code units, with U+FFFD for every surrogate outside a pair.
pub open spec fn utf16_lossy(u: Seq<u16>) -> Seq<char>
    decreases u.len(),
{
    if u.len() == 0 {
        Seq::empty()
    } else if high_surrogate(u[0]) && u.len() >= 2 && low_surrogate(u[1]) {
        seq![(0x10000 + (u[0] - 0xD800) * 0x400 + (u[1] - 0xDC00)) as char] + utf16_lossy(u.skip(2))
    } else if high_surrogate(u[0]) || low_surrogate(u[0]) {
        seq!['\u{FFFD}'] + utf16_lossy(u.skip(1))
    } else {
        seq![u[0] as char] + utf16_lossy(u.skip(1))
    }
}

/// The code units before the first zero, or all of them where there is none.
pub open spec fn until_nul(u: Seq<u16>) -> Seq<u16>
    decreases u.len(),
{
    if u.len() == 0 || u[0] == 0 {
        Seq::empty()
    } else {
        seq![u[0]] + until_nul(u.skip(1))
    }
}

/// A character is a Unicode scalar value, and its number gives it back.
proof fn lemma_char(c: char)
    ensures
        c as u32 == c as int,
        0 <= c as int <= 0xD7FF || 0xE000 <= c as int <= 0x10FFFF,
        (c as int) as char == c,
        (c as u32) as char == c,
{
}

/// The UTF-16 code units of a text with a zero behind them, as wide-character calls take it.
pub fn wide_null(s: &str) -> (r: Vec<u16>)
    ensures
        r@ == utf16(s@).push(0u16),
{
    let mut out: Vec<u16> = Vec::new();
    assert(s@.skip(0) =~= s@);
    for c in it: s.chars()
        invariant
            it.seq() == s@,
            out@ + utf16(s@.skip(it.index() as int)) == utf16(s@),
    {
        let v: u32 = c as u32;
        let ghost before = out@;
        let ghost rest = s@.skip(it.index() as int);
        if v < 0x10000 {
            out.push(v as u16);
        } else {
            out.push((0xD800 + (v - 0x10000) / 0x400) as u16);
            out.push((0xDC00 + (v - 0x10000) % 0x400) as u16);
        }
        proof {
            lemma_char(c);
            assert(rest[0] == c);
            assert(out@ =~= before + utf16_char(c));
            assert(rest.skip(1) =~= s@.skip(it.index() + 1));
            assert(out@ + utf16(rest.skip(1)) =~= before + utf16(rest));
        }
    }
    proof {
        assert(s@.skip(s@.len() as int) =~= Seq::<char>::empty());
        assert(out@ =~= utf16(s@));
    }
    out.push(0);
    out
}

/// The text of UTF-16 code units, unpaired surrogates replaced.
pub fn lossy_text(u: &[u16]) -> (r: String)
    ensures
        r@ == utf16_lossy(u@),
{
    let mut out = String::new();
    let mut i: usize = 0;
    assert(u@.skip(0) =~= u@);
    while i < u.len()
        invariant
            i <= u@.len(),
            out@ + utf16_lossy(u@.skip(i as int)) == utf16_lossy(u@),
        decreases u@.len() - i,
    {
        let ghost before = out@;
        let ghost rest = u@.skip(i as int);
        let a: u16 = u[i];
        let mut v: u32 = 0xFFFD;
        let mut taken: usize = 1;
        if 0xD800 <= a && a <= 0xDBFF && i + 1 < u.len() && 0xDC00 <= u[i + 1] && u[i + 1] <= 0xDFFF {
            v = 0x10000 + (a as u32 - 0xD800) * 0x400 + (u[i + 1] as u32 - 0xDC00);
            taken = 2;
        } else if !(0xD800 <= a && a <= 0xDFFF) {
            v = a as u32;
        }
        let c: char = match char::from_u32(v) {
            Some(c) => c,
            None => '\u{FFFD}',
        };
        out.push(c);
        proof {
            assert(rest.skip(taken as int) =~= u@.skip(i + taken));
            lemma_char(c);
            assert(c as int == v as int);
            assert(seq![c] + utf16_lossy(rest.skip(taken as int)) == utf16_lossy(rest));
            assert(out@ + utf16_lossy(rest.skip(taken as int)) =~= before + utf16_lossy(rest));
        }
        i = i + taken;
    }
    proof {
        assert(u@.skip(i as int) =~= Seq::<u16>::empty());
        assert(out@ =~= utf16_lossy(u@));
    }
    out
}

/// The text of a zero-terminated buffer of UTF-16 code units.
pub fn wide_to_string(w: &[u16]) -> (r: String)
    ensures
        r@ == utf16_lossy(until_nul(w@)),
{
    let mut end: usize = 0;
    assert(w@.skip(0) =~= w@);
    while end < w.len() && w[end] != 0
        invariant
            end <= w@.len(),
            w@.take(end as int) + until_nul(w@.skip(end as int)) == until_nul(w@),
        decreases w@.len() - end,
    {
        proof {
            let rest = w@.skip(end as int);
            assert(rest.skip(1) =~= w@.skip(end + 1));
            assert(w@.take(end + 1) + until_nul(rest.skip(1)) =~= w@.take(end as int) + until_nul(
                rest,
            ));
        }
        end = end + 1;
    }
    assert(w@.take(end as int) =~= until_nul(w@));
    assert(w@.subrange(0, end as int) =~= w@.take(end as int));
    lossy_text(vstd::slice::slice_subrange(w, 0, end))
}

/// The text itself, or nothing where it is empty.
pub fn non_empty(s: String) -> (r: Option<String>)
    ensures
        r == (if s@.len() == 0 { None::<String> } else { Some(s) }),
{
    if s.as_str().is_empty() {
        None
    } else {
        Some(s)
    }
}

// ---------------------------------------------------------------------------------------------
// Laws
// ---------------------------------------------------------------------------------------------

/// What a lower-case digit stands for.
pub open spec fn digit_value(c: char) -> nat {
    if c == '1' { 1 } else if c == '2' { 2 } else if c == '3' { 3 } else if c == '4' { 4 }
    else if c == '5' { 5 } else if c == '6' { 6 } else if c == '7' { 7 } else if c == '8' { 8 }
    else if c == '9' { 9 } else if c == 'a' { 10 } else if c == 'b' { 11 } else if c == 'c' { 12 }
    else if c == 'd' { 13 } else if c == 'e' { 14 } else if c == 'f' { 15 } else { 0 }
}

/// The number that digits stand for, in a base.
pub open spec fn value_of(digits: Seq<char>, base: nat) -> nat
    decreases digits.len(),
{
    if digits.len() == 0 {
        0
    } else {
        value_of(digits.drop_last(), base) * base + digit_value(digits.last())
    }
}

/// Decimal digits stand for the number they were written from.
pub proof fn law_decimal_value(n: nat)
    ensures
        value_of(decimal(n), 10) == n,
    decreases n,
{
    reveal_with_fuel(value_of, 2);
    if n >= 10 {
        law_decimal_value(n / 10);
        assert(decimal(n).drop_last() =~= decimal(n / 10));
    } else {
        assert(decimal(n).drop_last() =~= Seq::<char>::empty());
    }
}

/// Decimal text holds decimal digits and nothing else.
pub proof fn law_decimal_digits(n: nat)
    ensures
        decimal(n).len() >= 1,
        forall|i: int| 0 <= i < decimal(n).len() ==> '0' <= #[trigger] decimal(n)[i] <= '9',
    decreases n,
{
    if n >= 10 {
        law_decimal_digits(n / 10);
    }
}

/// Hexadecimal digits, however many zeros stand in front, stand for the number they were written
/// from.
pub proof fn law_hexadecimal_value(n: nat, width: nat)
    ensures
        value_of(padded(hexadecimal(n, false), width), 16) == n,
{
    lemma_hexadecimal_value(n);
    let digits = hexadecimal(n, false);
    if digits.len() < width {
        lemma_leading_zeros(digits, (width - digits.len()) as nat, 16);
    }
}

proof fn lemma_hexadecimal_value(n: nat)
    ensures
        value_of(hexadecimal(n, false), 16) == n,
    decreases n,
{
    reveal_with_fuel(value_of, 2);
    if n >= 16 {
        lemma_hexadecimal_value(n / 16);
        assert(hexadecimal(n, false).drop_last() =~= hexadecimal(n / 16, false));
    } else {
        assert(hexadecimal(n, false).drop_last() =~= Seq::<char>::empty());
    }
}

proof fn lemma_leading_zeros(digits: Seq<char>, zeros: nat, base: nat)
    ensures
        value_of(Seq::new(zeros, |i: int| '0') + digits, base) == value_of(digits, base),
    decreases digits.len(), zeros,
{
    let all = Seq::new(zeros, |i: int| '0') + digits;
    if digits.len() > 0 {
        lemma_leading_zeros(digits.drop_last(), zeros, base);
        assert(all.drop_last() =~= Seq::new(zeros, |i: int| '0') + digits.drop_last());
    } else if zeros > 0 {
        lemma_leading_zeros(digits, (zeros - 1) as nat, base);
        assert(all.drop_last() =~= Seq::new((zeros - 1) as nat, |i: int| '0') + digits);
        assert(0nat * base == 0) by (nonlinear_arith);
    } else {
        assert(all =~= digits);
    }
}

proof fn lemma_digit_value(d: int)
    requires
        0 <= d < 16,
    ensures
        digit_value(digit(d)) == d,
{
}

/// Hexadecimal text of bytes is made of digits and of the letters from `a` to `f`.
pub proof fn law_hex_digits(bytes: Seq<u8>, i: int)
    requires
        0 <= i < hex_of(bytes).len(),
    ensures
        '0' <= hex_of(bytes)[i] <= '9' || 'a' <= hex_of(bytes)[i] <= 'f',
{
}

/// Different byte strings have different hexadecimal text.
pub proof fn law_hex_injective(a: Seq<u8>, b: Seq<u8>)
    requires
        hex_of(a) == hex_of(b),
    ensures
        a == b,
{
    assert(hex_of(a).len() == 2 * a.len() && hex_of(b).len() == 2 * b.len());
    assert forall|i: int| 0 <= i < a.len() implies a[i] == b[i] by {
        let even = 2 * i;
        let odd = 2 * i + 1;
        assert(even / 2 == i && even % 2 == 0 && odd / 2 == i && odd % 2 == 1);
        assert(hex_of(a)[even] == digit(a[i] as int / 16) && hex_of(b)[even] == digit(
            b[i] as int / 16,
        ));
        assert(hex_of(a)[odd] == digit(a[i] as int % 16) && hex_of(b)[odd] == digit(
            b[i] as int % 16,
        ));
        lemma_digit_value(a[i] as int / 16);
        lemma_digit_value(b[i] as int / 16);
        lemma_digit_value(a[i] as int % 16);
        lemma_digit_value(b[i] as int % 16);
    }
    assert(a =~= b);
}

/// Text written as UTF-16 reads back as the same text.
pub proof fn law_utf16_roundtrip(s: Seq<char>)
    ensures
        utf16_lossy(utf16(s)) == s,
    decreases s.len(),
{
    if s.len() > 0 {
        law_utf16_roundtrip(s.skip(1));
        lemma_char(s[0]);
        let u = utf16(s);
        let head = utf16_char(s[0]);
        assert(u.skip(head.len() as int) =~= utf16(s.skip(1)));
        assert(u[0] == head[0]);
        if head.len() == 2 {
            assert(u[1] == head[1]);
        }
        assert(seq![s[0]] + s.skip(1) =~= s);
    }
}

/// Text without a zero character, written as a zero-terminated wide string and read back up to
/// the terminator, is the same text.
pub proof fn law_wide_roundtrip(s: Seq<char>)
    requires
        !s.contains('\0'),
    ensures
        utf16_lossy(until_nul(utf16(s).push(0u16))) == s,
{
    lemma_no_zero_unit(s);
    lemma_until_terminator(utf16(s));
    law_utf16_roundtrip(s);
}

proof fn lemma_no_zero_unit(s: Seq<char>)
    requires
        !s.contains('\0'),
    ensures
        forall|i: int| 0 <= i < utf16(s).len() ==> utf16(s)[i] != 0,
    decreases s.len(),
{
    if s.len() > 0 {
        assert forall|c: char| s.skip(1).contains(c) implies s.contains(c) by {
            let k = choose|k: int| 0 <= k < s.skip(1).len() && s.skip(1)[k] == c;
            assert(s[k + 1] == c);
        }
        lemma_no_zero_unit(s.skip(1));
        lemma_char(s[0]);
        assert(s.contains(s[0]));
        assert(s[0] as int != 0) by {
            lemma_char('\0');
        }
        let head = utf16_char(s[0]);
        assert forall|i: int| 0 <= i < utf16(s).len() implies utf16(s)[i] != 0 by {
            if i >= head.len() {
                assert(utf16(s)[i] == utf16(s.skip(1))[i - head.len()]);
            } else {
                assert(utf16(s)[i] == head[i]);
            }
        }
    }
}

proof fn lemma_until_terminator(u: Seq<u16>)
    requires
        forall|i: int| 0 <= i < u.len() ==> u[i] != 0,
    ensures
        until_nul(u.push(0u16)) == u,
    decreases u.len(),
{
    if u.len() > 0 {
        lemma_until_terminator(u.skip(1));
        assert(u.push(0u16).skip(1) =~= u.skip(1).push(0u16));
        assert(seq![u[0]] + u.skip(1) =~= u);
    }
}

/// Decimal text wastes nothing: only zero itself begins with a zero.
pub proof fn law_decimal_has_no_leading_zero(n: nat)
    ensures
        n == 0 ==> decimal(n) == seq!['0'],
        n > 0 ==> decimal(n)[0] != '0',
    decreases n,
{
    if n >= 10 {
        law_decimal_has_no_leading_zero(n / 10);
        law_decimal_digits(n / 10);
    }
}

/// The value of a digit is its place behind `0`, or behind `a` counted from ten.
pub proof fn law_digit_value(c: char)
    ensures
        '0' <= c <= '9' ==> digit_value(c) == c as int - '0' as int,
        'a' <= c <= 'f' ==> digit_value(c) == c as int - 'a' as int + 10,
{
}

/// Padding only puts zeros in front, and only as many as are missing.
pub proof fn law_padding(digits: Seq<char>, width: nat)
    ensures
        padded(digits, width).len() == (if digits.len() < width {
            width
        } else {
            digits.len()
        }),
        digits.is_suffix_of(padded(digits, width)),
        forall|i: int|
            0 <= i < padded(digits, width).len() - digits.len() ==> padded(digits, width)[i] == '0',
{
    assert(padded(digits, width).skip(padded(digits, width).len() - digits.len()) =~= digits);
}

/// Upper and lower case differ in the letters alone.
pub proof fn law_hexadecimal_case(n: nat)
    ensures
        hexadecimal(n, true).len() == hexadecimal(n, false).len(),
        forall|i: int|
            0 <= i < hexadecimal(n, true).len() ==> {
                let lower = #[trigger] hexadecimal(n, false)[i];
                let upper = hexadecimal(n, true)[i];
                ||| '0' <= lower <= '9' && upper == lower
                ||| 'a' <= lower <= 'f' && upper as int == lower as int - 32
            },
    decreases n,
{
    if n >= 16 {
        law_hexadecimal_case(n / 16);
        let a = hexadecimal(n / 16, false);
        let b = hexadecimal(n / 16, true);
        assert forall|i: int| 0 <= i < hexadecimal(n, true).len() implies {
            let lower = #[trigger] hexadecimal(n, false)[i];
            let upper = hexadecimal(n, true)[i];
            ||| '0' <= lower <= '9' && upper == lower
            ||| 'a' <= lower <= 'f' && upper as int == lower as int - 32
        } by {
            if i < a.len() {
                assert(hexadecimal(n, false)[i] == a[i]);
                assert(hexadecimal(n, true)[i] == b[i]);
            }
        }
    }
}

/// Every byte can be read back from its own two digits.
pub proof fn law_hex_tells_every_byte(bytes: Seq<u8>, i: int)
    requires
        0 <= i < bytes.len(),
    ensures
        hex_of(bytes).len() == 2 * bytes.len(),
        16 * digit_value(hex_of(bytes)[2 * i]) + digit_value(hex_of(bytes)[2 * i + 1]) == bytes[i],
{
    let even = 2 * i;
    let odd = 2 * i + 1;
    assert(even / 2 == i && even % 2 == 0 && odd / 2 == i && odd % 2 == 1);
    lemma_digit_value(bytes[i] as int / 16);
    lemma_digit_value(bytes[i] as int % 16);
}

/// A character of the basic plane is one code unit, its own number; any other is a pair of
/// surrogates that its number can be counted from.
pub proof fn law_utf16_units(c: char)
    ensures
        (c as int) < 0x10000 ==> utf16(seq![c]) == seq![c as u16],
        c as int >= 0x10000 ==> {
            let u = utf16(seq![c]);
            &&& u.len() == 2
            &&& 0xD800 <= u[0] <= 0xDBFF
            &&& 0xDC00 <= u[1] <= 0xDFFF
            &&& 0x10000 + (u[0] - 0xD800) * 0x400 + (u[1] - 0xDC00) == c as int
        },
{
    reveal_with_fuel(utf16, 2);
    lemma_char(c);
    let s = seq![c];
    assert(s.skip(1) =~= Seq::<char>::empty());
    assert(utf16(s) =~= utf16_char(c));
}

/// Texts are written one behind the other.
pub proof fn law_utf16_in_pieces(a: Seq<char>, b: Seq<char>)
    ensures
        utf16(a + b) == utf16(a) + utf16(b),
    decreases a.len(),
{
    if a.len() == 0 {
        assert(a + b =~= b);
        assert(utf16(a) + utf16(b) =~= utf16(b));
    } else {
        assert((a + b).skip(1) =~= a.skip(1) + b);
        law_utf16_in_pieces(a.skip(1), b);
        assert(utf16(a + b) =~= utf16(a) + utf16(b));
    }
}

/// A code unit outside a pair reads as its own character, or as U+FFFD where it is a surrogate; a
/// pair reads as the character that it stands for.
pub proof fn law_lossy_units(x: u16, y: u16)
    ensures
        x < 0xD800 || x > 0xDFFF ==> utf16_lossy(seq![x]) == seq![x as char],
        0xD800 <= x <= 0xDFFF ==> utf16_lossy(seq![x]) == seq!['\u{FFFD}'],
        0xD800 <= x <= 0xDBFF && 0xDC00 <= y <= 0xDFFF ==> utf16_lossy(seq![x, y]) == seq![
            (0x10000 + (x - 0xD800) * 0x400 + (y - 0xDC00)) as char,
        ],
{
    reveal_with_fuel(utf16_lossy, 2);
    assert(seq![x].skip(1) =~= Seq::<u16>::empty());
    assert(seq![x, y].skip(2) =~= Seq::<u16>::empty());
    assert(utf16_lossy(seq![x]) =~= seq![utf16_lossy(seq![x])[0]]);
    if 0xD800 <= x <= 0xDBFF && 0xDC00 <= y <= 0xDFFF {
        assert(utf16_lossy(seq![x, y]) =~= seq![
            (0x10000 + (x - 0xD800) * 0x400 + (y - 0xDC00)) as char,
        ]);
    }
}

/// Code units read the same in one piece or in two, unless the cut goes through a pair: nothing in
/// front is lost and nothing behind it.
pub proof fn law_lossy_in_pieces(u: Seq<u16>, v: Seq<u16>)
    requires
        u.len() == 0 || v.len() == 0 || !(0xD800 <= u.last() <= 0xDBFF && 0xDC00 <= v[0] <= 0xDFFF),
    ensures
        utf16_lossy(u + v) == utf16_lossy(u) + utf16_lossy(v),
    decreases u.len(),
{
    if u.len() == 0 {
        assert(u + v =~= v);
        assert(utf16_lossy(u) + utf16_lossy(v) =~= utf16_lossy(v));
    } else {
        let all = u + v;
        let k: int = if 0xD800 <= u[0] <= 0xDBFF && u.len() >= 2 && 0xDC00 <= u[1] <= 0xDFFF {
            2
        } else {
            1
        };
        assert(all[0] == u[0]);
        assert(all.skip(k) =~= u.skip(k) + v);
        if u.len() >= 2 {
            assert(all[1] == u[1]);
        } else if v.len() > 0 {
            assert(all[1] == v[0]);
        }
        law_lossy_in_pieces(u.skip(k), v);
        assert(utf16_lossy(all) =~= utf16_lossy(u) + utf16_lossy(v));
    }
}

/// A zero-terminated text is what stands in front of the first zero, and all where there is none.
pub proof fn law_until_nul(u: Seq<u16>)
    ensures
        until_nul(u).is_prefix_of(u),
        forall|i: int| 0 <= i < until_nul(u).len() ==> until_nul(u)[i] != 0,
        until_nul(u).len() < u.len() ==> u[until_nul(u).len() as int] == 0,
    decreases u.len(),
{
    if u.len() > 0 && u[0] != 0 {
        let rest = u.skip(1);
        law_until_nul(rest);
        assert(until_nul(u).skip(1) =~= until_nul(rest));
        assert forall|i: int| 0 <= i < until_nul(u).len() implies until_nul(u)[i] != 0 by {
            if i > 0 {
                assert(until_nul(u)[i] == until_nul(rest)[i - 1]);
            }
        }
        assert(until_nul(u) =~= u.take(until_nul(u).len() as int)) by {
            assert forall|i: int| 0 <= i < until_nul(u).len() implies until_nul(u)[i] == u[i] by {
                if i > 0 {
                    assert(until_nul(rest)[i - 1] == rest[i - 1]);
                }
            }
        }
    } else {
        assert(until_nul(u) =~= u.take(0));
    }
}

/// A number of 32 bits has at most eight hexadecimal digits.
pub proof fn lemma_eight_digits(n: u32)
    ensures
        hexadecimal(n as nat, false).len() <= 8,
{
    reveal_with_fuel(hexadecimal, 9);
}

/// Zeros in front of digits change nothing of the number that they stand for.
pub proof fn law_leading_zeros_are_worth_nothing(digits: Seq<char>, width: nat, base: nat)
    ensures
        value_of(padded(digits, width), base) == value_of(digits, base),
{
    if digits.len() < width {
        lemma_leading_zeros(digits, (width - digits.len()) as nat, base);
    }
}

/// What is absent stays absent, and what is there stays what it is.
pub proof fn law_optional_values(s: String, t: &str, n: u64)
    ensures
        opt_text(Some(s)) == Some(s@) && opt_text(None) == None::<Seq<char>>,
        opt_str(Some(t)) == Some(t@) && opt_str(None) == None::<Seq<char>>,
        opt_int(Some(n)) == Some(n as int) && opt_int(None) == None::<int>,
{
}

} // verus!
