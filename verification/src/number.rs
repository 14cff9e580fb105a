//! Decimal numbers as text: reading what the user typed and writing whole
//! numbers out.
//!
//! Prices, price changes and percentages are fixed-point numbers with four
//! decimal places: the integer `12_500` stands for `1.25`.

use vstd::prelude::*;

verus! {

/// How many fixed-point units make one whole unit.
pub const SCALE: u64 = 10_000;

/// Whether `c` is one of the ten ASCII digits.
pub open spec fn is_digit(c: char) -> bool {
    0x30 <= c as u32 <= 0x39
}

/// The value of the digit `c`.
pub open spec fn digit_value(c: char) -> nat {
    (c as u32 - 0x30) as nat
}

/// Whether `s` holds ASCII digits only (true of the empty text).
pub open spec fn all_digits(s: Seq<char>) -> bool {
    forall|i: int| 0 <= i < s.len() ==> is_digit(#[trigger] s[i])
}

/// The number that the digits of `s` write in base ten; 0 for the empty text.
pub open spec fn digits_value(s: Seq<char>) -> nat
    decreases s.len(),
{
    if s.len() == 0 {
        0
    } else {
        digits_value(s.drop_last()) * 10 + digit_value(s.last())
    }
}

/// The digit for `d`, which must be below ten.
pub open spec fn digit_char(d: nat) -> char {
    if d == 0 {
        '0'
    } else if d == 1 {
        '1'
    } else if d == 2 {
        '2'
    } else if d == 3 {
        '3'
    } else if d == 4 {
        '4'
    } else if d == 5 {
        '5'
    } else if d == 6 {
        '6'
    } else if d == 7 {
        '7'
    } else if d == 8 {
        '8'
    } else {
        '9'
    }
}

/// `n` written in base ten, without sign or leading zeros.
pub open spec fn decimal(n: nat) -> Seq<char>
    decreases n,
{
    if n < 10 {
        seq![digit_char(n)]
    } else {
        decimal(n / 10).push(digit_char(n % 10))
    }
}

/// Whether `c` is an ASCII digit.
pub fn char_is_digit(c: char) -> (r: bool)
    ensures
        r == is_digit(c),
{
    let n: u32 = c as u32;
    0x30 <= n && n <= 0x39
}

/// The value of the ASCII digit `c`.
pub fn char_digit_value(c: char) -> (r: u8)
    requires
        is_digit(c),
    ensures
        r == digit_value(c),
        r < 10,
{
    let n: u32 = c as u32;
    (n - 0x30) as u8
}

/// The digit for `d`.
pub fn digit_to_char(d: u8) -> (c: char)
    requires
        d < 10,
    ensures
        c == digit_char(d as nat),
{
    if d == 0 {
        '0'
    } else if d == 1 {
        '1'
    } else if d == 2 {
        '2'
    } else if d == 3 {
        '3'
    } else if d == 4 {
        '4'
    } else if d == 5 {
        '5'
    } else if d == 6 {
        '6'
    } else if d == 7 {
        '7'
    } else if d == 8 {
        '8'
    } else {
        '9'
    }
}

/// The digits of `n` in base ten.
pub fn decimal_chars(n: u128) -> (out: Vec<char>)
    ensures
        out@ == decimal(n as nat),
{
    let mut out: Vec<char> = Vec::new();
    let mut m: u128 = n;
    while m >= 10
        invariant
            decimal(n as nat) == decimal(m as nat) + out@,
        decreases m,
    {
        let d: u8 = (m % 10) as u8;
        let ghost before = out@;
        out.insert(0, digit_to_char(d));
        proof {
            let c = digit_char((m % 10) as nat);
            assert(out@ =~= seq![c] + before);
            assert(decimal(m as nat) == decimal((m / 10) as nat).push(c));
            assert(decimal((m / 10) as nat).push(c) + before =~= decimal((m / 10) as nat) + out@);
        }
        m = m / 10;
    }
    let ghost before = out@;
    out.insert(0, digit_to_char(m as u8));
    assert(out@ =~= seq![digit_char(m as nat)] + before);
    out
}

/// Appends `n` in base ten to `out`.
pub fn push_decimal(out: &mut Vec<char>, n: u128)
    ensures
        final(out)@ == old(out)@ + decimal(n as nat),
{
    let digits = decimal_chars(n);
    push_all(out, &digits);
}

/// Appends the characters of `more` to `out`.
pub fn push_all(out: &mut Vec<char>, more: &Vec<char>)
    ensures
        final(out)@ == old(out)@ + more@,
{
    let mut i: usize = 0;
    while i < more.len()
        invariant
            i <= more.len(),
            out@ == old(out)@ + more@.take(i as int),
        decreases more.len() - i,
    {
        out.push(more[i]);
        assert(more@.take(i + 1) =~= more@.take(i as int).push(more@[i as int]));
        assert(out@ =~= old(out)@ + more@.take(i + 1));
        i += 1;
    }
    assert(more@.take(more.len() as int) =~= more@);
}

/// Appends the characters of the text `more` to `out`.
pub fn push_text(out: &mut Vec<char>, more: &str)
    ensures
        final(out)@ == old(out)@ + more@,
{
    let chars = crate::text::chars_of(more);
    push_all(out, &chars);
}

/// A longer run of digits never writes a smaller number than its beginning.
pub proof fn lemma_digits_value_grows(s: Seq<char>, k: int)
    requires
        0 <= k <= s.len(),
    ensures
        digits_value(s.take(k)) <= digits_value(s),
    decreases s.len(),
{
    if k == s.len() {
        assert(s.take(k) =~= s);
    } else {
        lemma_digits_value_grows(s.drop_last(), k);
        assert(s.drop_last().take(k) =~= s.take(k));
    }
}

/// The whole number that `s` writes, if `s` is one or more ASCII digits,
/// possibly after one `+`, and the number fits 32 bits. This is what
/// `str::parse::<u32>` accepts.
pub open spec fn parsed_u32(s: Seq<char>) -> Option<u32> {
    let body = if s.len() > 0 && s[0] == '+' {
        s.skip(1)
    } else {
        s
    };
    if body.len() > 0 && all_digits(body) && digits_value(body) <= u32::MAX {
        Some(digits_value(body) as u32)
    } else {
        None
    }
}

/// Reads digits from index `from` of `s` to its end. Returns their value if
/// all of them are digits and the value is at most `limit`.
fn read_digits(s: &Vec<char>, from: usize, limit: u64) -> (r: Option<u64>)
    requires
        from <= s.len(),
        limit <= 1_844_674_407_370_955_160u64,
    ensures
        r == if all_digits(s@.skip(from as int)) && digits_value(s@.skip(from as int)) <= limit {
            Some(digits_value(s@.skip(from as int)) as u64)
        } else {
            None
        },
{
    let ghost body = s@.skip(from as int);
    let mut acc: u64 = 0;
    let mut i: usize = from;
    while i < s.len()
        invariant
            from <= i <= s.len(),
            body == s@.skip(from as int),
            all_digits(body.take(i - from)),
            acc == digits_value(body.take(i - from)),
            acc <= limit,
            limit <= 1_844_674_407_370_955_160u64,
        decreases s.len() - i,
    {
        let c = s[i];
        assert(body[i - from] == c);
        if !char_is_digit(c) {
            return None;
        }
        let d = char_digit_value(c);
        let next: u64 = acc * 10 + d as u64;
        proof {
            let longer = body.take(i - from + 1);
            assert(longer.drop_last() =~= body.take(i - from));
            assert(longer.last() == c);
            assert(digits_value(longer) == next);
            assert forall|k: int| 0 <= k < longer.len() implies is_digit(#[trigger] longer[k]) by {
                if k < longer.len() - 1 {
                    assert(body.take(i - from)[k] == longer[k]);
                }
            }
            lemma_digits_value_grows(body, i - from + 1);
        }
        if next > limit {
            return None;
        }
        acc = next;
        i += 1;
    }
    assert(body.take(i - from) =~= body);
    Some(acc)
}

/// Reads a whole number of at most 32 bits.
pub fn parse_u32(s: &str) -> (r: Option<u32>)
    ensures
        r == parsed_u32(s@),
{
    let chars = crate::text::chars_of(s);
    let from: usize = if chars.len() > 0 && chars[0] == '+' {
        1
    } else {
        0
    };
    if from >= chars.len() {
        assert(chars@.skip(from as int).len() == 0);
        return None;
    }
    assert(from == 0 ==> chars@.skip(0) =~= chars@);
    match read_digits(&chars, from, 0xffff_ffff) {
        Some(v) => Some(v as u32),
        None => None,
    }
}

/// Index of the first `.` in `s`, or `s.len()` if it has none.
pub open spec fn dot_index(s: Seq<char>, from: int) -> int
    decreases s.len() - from,
{
    if 0 <= from < s.len() && s[from] != '.' {
        dot_index(s, from + 1)
    } else {
        from
    }
}

/// The value of the `i`-th digit of a fraction, 0 where the fraction has
/// fewer digits.
pub open spec fn fraction_digit(frac: Seq<char>, i: int) -> nat {
    if 0 <= i < frac.len() {
        digit_value(frac[i])
    } else {
        0
    }
}

/// The first four digits of a fraction in fixed-point units; further digits
/// are dropped.
pub open spec fn fraction_units(frac: Seq<char>) -> nat {
    fraction_digit(frac, 0) * 1000 + fraction_digit(frac, 1) * 100 + fraction_digit(frac, 2) * 10
        + fraction_digit(frac, 3)
}

/// The fixed-point amount that `s` writes: digits, then optionally a `.` and
/// more digits, with at least one digit in all. Digits behind the fourth
/// decimal place are dropped. `None` for any other text and for an amount
/// that does not fit 64 bits.
pub open spec fn parsed_amount(s: Seq<char>) -> Option<u64> {
    let dot = dot_index(s, 0);
    let whole = s.take(dot);
    let frac = if dot < s.len() {
        s.skip(dot + 1)
    } else {
        Seq::<char>::empty()
    };
    if all_digits(whole) && all_digits(frac) && whole.len() + frac.len() > 0 && digits_value(whole)
        * SCALE + fraction_units(frac) <= u64::MAX {
        Some((digits_value(whole) * SCALE + fraction_units(frac)) as u64)
    } else {
        None
    }
}

/// `dot_index` lies between `from` and the end, no point stands before it,
/// and a point stands at it unless it is the end.
pub proof fn lemma_dot_index(s: Seq<char>, from: int)
    requires
        0 <= from <= s.len(),
    ensures
        from <= dot_index(s, from) <= s.len(),
        forall|k: int| from <= k < dot_index(s, from) ==> #[trigger] s[k] != '.',
        dot_index(s, from) < s.len() ==> s[dot_index(s, from)] == '.',
    decreases s.len() - from,
{
    if from < s.len() && s[from] != '.' {
        lemma_dot_index(s, from + 1);
    }
}

/// Reads a fixed-point amount such as `8000`, `8000.5` or `.25`.
pub fn parse_amount(s: &str) -> (r: Option<u64>)
    ensures
        r == parsed_amount(s@),
{
    let chars = crate::text::chars_of(s);
    let n = chars.len();
    let mut dot: usize = 0;
    while dot < n && chars[dot] != '.'
        invariant
            dot <= n,
            n == chars.len(),
            dot_index(chars@, 0) == dot_index(chars@, dot as int),
        decreases n - dot,
    {
        dot += 1;
    }
    let ghost whole = chars@.take(dot as int);
    let ghost frac = if dot < n {
        chars@.skip(dot + 1)
    } else {
        Seq::<char>::empty()
    };
    assert(dot == dot_index(s@, 0));
    // The digits before the point.
    let mut acc: u64 = 0;
    let mut i: usize = 0;
    while i < dot
        invariant
            i <= dot <= n,
            n == chars.len(),
            chars@ == s@,
            dot == dot_index(s@, 0),
            whole == chars@.take(dot as int),
            all_digits(whole.take(i as int)),
            acc == digits_value(whole.take(i as int)),
            acc <= 1_844_674_407_370_955u64,
        decreases dot - i,
    {
        let c = chars[i];
        assert(whole[i as int] == c);
        if !char_is_digit(c) {
            return None;
        }
        let d = char_digit_value(c);
        let next: u64 = acc * 10 + d as u64;
        proof {
            let longer = whole.take(i + 1);
            assert(longer.drop_last() =~= whole.take(i as int));
            assert(longer.last() == c);
            assert forall|k: int| 0 <= k < longer.len() implies is_digit(#[trigger] longer[k]) by {
                if k < longer.len() - 1 {
                    assert(whole.take(i as int)[k] == longer[k]);
                }
            }
            lemma_digits_value_grows(whole, i + 1);
        }
        if next > 1_844_674_407_370_955 {
            proof {
                assert(digits_value(whole) * SCALE >= next * 10_000) by (nonlinear_arith)
                    requires
                        digits_value(whole) >= next,
                        SCALE == 10_000,
                ;
            }
            return None;
        }
        acc = next;
        i += 1;
    }
    assert(whole.take(dot as int) =~= whole);
    // The digits behind the point.
    let mut units: u64 = 0;
    let mut place: u64 = 1000;
    let mut count: usize = 0;
    if dot < n {
        let mut j: usize = dot + 1;
        while j < n
            invariant
                dot < j <= n,
                n == chars.len(),
                chars@ == s@,
                dot == dot_index(s@, 0),
                whole == chars@.take(dot as int),
                all_digits(whole),
                frac == chars@.skip(dot + 1),
                count == j - dot - 1,
                all_digits(frac.take(count as int)),
                place == if count == 0 {
                    1000u64
                } else if count == 1 {
                    100u64
                } else if count == 2 {
                    10u64
                } else if count == 3 {
                    1u64
                } else {
                    0u64
                },
                units == (if count > 0 {
                    fraction_digit(frac, 0) * 1000
                } else {
                    0
                }) + (if count > 1 {
                    fraction_digit(frac, 1) * 100
                } else {
                    0
                }) + (if count > 2 {
                    fraction_digit(frac, 2) * 10
                } else {
                    0
                }) + (if count > 3 {
                    fraction_digit(frac, 3)
                } else {
                    0
                }),
                units <= 9999,
            decreases n - j,
        {
            let c = chars[j];
            assert(frac[count as int] == c);
            if !char_is_digit(c) {
                return None;
            }
            let d = char_digit_value(c);
            proof {
                let longer = frac.take(count + 1);
                assert forall|k: int| 0 <= k < longer.len() implies is_digit(
                    #[trigger] longer[k],
                ) by {
                    if k < longer.len() - 1 {
                        assert(frac.take(count as int)[k] == longer[k]);
                    }
                }
            }
            units = units + place * (d as u64);
            place = place / 10;
            count += 1;
            j += 1;
        }
        assert(frac.take(count as int) =~= frac);
    }
    assert(units == fraction_units(frac));
    if dot + count == 0 {
        return None;
    }
    let scaled: u64 = acc * 10_000;
    if scaled > 0xffff_ffff_ffff_ffff - units {
        return None;
    }
    Some(scaled + units)
}

/// Ten to the power `n`.
pub open spec fn pow10(n: nat) -> nat
    decreases n,
{
    if n == 0 {
        1
    } else {
        10 * pow10((n - 1) as nat)
    }
}

/// The last `width` digits of `n`, with leading zeros where `n` has fewer.
pub open spec fn padded(n: nat, width: nat) -> Seq<char>
    decreases width,
{
    if width == 0 {
        Seq::empty()
    } else {
        padded(n / 10, (width - 1) as nat).push(digit_char(n % 10))
    }
}

/// `n / unit`, rounded to the nearest whole number, a tie to the even one.
pub open spec fn round_half_even(n: nat, unit: nat) -> nat {
    let q = n / unit;
    let r = n % unit;
    if 2 * r > unit || (2 * r == unit && q % 2 == 1) {
        q + 1
    } else {
        q
    }
}

/// `n / unit`, rounded to the nearest whole number, a tie away from zero.
pub open spec fn round_half_up(n: nat, unit: nat) -> nat {
    let q = n / unit;
    let r = n % unit;
    if 2 * r >= unit {
        q + 1
    } else {
        q
    }
}

/// A number of `places` decimal places, given in units of the last place:
/// the whole part, and behind a point the decimal places, if there are any.
pub open spec fn places_text(n: nat, places: nat) -> Seq<char> {
    if places == 0 {
        decimal(n)
    } else {
        decimal(n / pow10(places)) + seq!['.'] + padded(n % pow10(places), places)
    }
}

/// A fixed-point magnitude written with `places` decimal places (at most
/// four), rounded half to even.
pub open spec fn rounded_text(magnitude: nat, places: nat) -> Seq<char> {
    places_text(round_half_even(magnitude, pow10((4 - places) as nat)), places)
}

/// The digits behind the point of a fixed-point amount, without trailing
/// zeros; `fraction` is between 1 and 9999.
pub open spec fn fraction_text(fraction: nat) -> Seq<char> {
    if fraction % 10 != 0 {
        padded(fraction, 4)
    } else if fraction % 100 != 0 {
        padded(fraction / 10, 3)
    } else if fraction % 1000 != 0 {
        padded(fraction / 100, 2)
    } else {
        padded(fraction / 1000, 1)
    }
}

/// A fixed-point amount written in the shortest way: `8000`, `8000.5`,
/// `0.0125`.
pub open spec fn amount_text(amount: u64) -> Seq<char> {
    if amount % SCALE == 0 {
        decimal((amount / SCALE) as nat)
    } else {
        decimal((amount / SCALE) as nat) + seq!['.'] + fraction_text((amount % SCALE) as nat)
    }
}

/// Ten to the power `n`, for `n` up to four.
pub fn pow10_small(n: u8) -> (r: u64)
    requires
        n <= 4,
    ensures
        r == pow10(n as nat),
        1 <= r <= 10_000,
{
    reveal_with_fuel(pow10, 5);
    if n == 0 {
        1
    } else if n == 1 {
        10
    } else if n == 2 {
        100
    } else if n == 3 {
        1000
    } else {
        10_000
    }
}

/// Appends the last `width` digits of `n` to `out`, with leading zeros.
pub fn push_padded(out: &mut Vec<char>, n: u64, width: u8)
    ensures
        final(out)@ == old(out)@ + padded(n as nat, width as nat),
{
    let mut digits: Vec<char> = Vec::new();
    let mut m: u64 = n;
    let mut w: u8 = 0;
    while w < width
        invariant
            w <= width,
            padded(n as nat, width as nat) == padded(m as nat, (width - w) as nat) + digits@,
        decreases width - w,
    {
        let d: u8 = (m % 10) as u8;
        let ghost before = digits@;
        digits.insert(0, digit_to_char(d));
        proof {
            let c = digit_char((m % 10) as nat);
            assert(digits@ =~= seq![c] + before);
            assert(padded(m as nat, (width - w) as nat) == padded(
                (m / 10) as nat,
                (width - w - 1) as nat,
            ).push(c));
            assert(padded((m / 10) as nat, (width - w - 1) as nat).push(c) + before =~= padded(
                (m / 10) as nat,
                (width - w - 1) as nat,
            ) + digits@);
        }
        m = m / 10;
        w += 1;
    }
    assert(padded(m as nat, 0) + digits@ =~= digits@);
    push_all(out, &digits);
}

/// Appends a number of `places` decimal places, given in units of the last
/// place.
pub fn push_places(out: &mut Vec<char>, n: u128, places: u8)
    requires
        places <= 4,
    ensures
        final(out)@ == old(out)@ + places_text(n as nat, places as nat),
{
    if places == 0 {
        push_decimal(out, n);
    } else {
        let unit = pow10_small(places) as u128;
        push_decimal(out, n / unit);
        out.push('.');
        push_padded(out, (n % unit) as u64, places);
        assert(out@ =~= old(out)@ + places_text(n as nat, places as nat));
    }
}

/// `n / unit`, rounded to the nearest whole number, a tie to the even one.
pub fn div_round_half_even(n: u128, unit: u64) -> (r: u128)
    requires
        unit > 0,
        unit <= 1_000_000_000_000_000,
    ensures
        r == round_half_even(n as nat, unit as nat),
{
    let q: u128 = n / (unit as u128);
    let r: u128 = n % (unit as u128);
    if 2 * r > unit as u128 || (2 * r == unit as u128 && q % 2 == 1) {
        assert(q < 0xffff_ffff_ffff_ffff_ffff_ffff_ffff_ffff) by {
            if unit == 1 {
                assert(r == 0);
            } else {
                assert(q <= n / 2) by (nonlinear_arith)
                    requires
                        q == n / (unit as u128),
                        unit >= 2,
                ;
            }
        }
        q + 1
    } else {
        q
    }
}

/// `n / unit`, rounded to the nearest whole number, a tie away from zero.
pub fn div_round_half_up(n: u128, unit: u64) -> (r: u128)
    requires
        unit > 1,
        unit <= 1_000_000_000_000_000,
    ensures
        r == round_half_up(n as nat, unit as nat),
{
    let q: u128 = n / (unit as u128);
    let r: u128 = n % (unit as u128);
    if 2 * r >= unit as u128 {
        assert(q <= n / 2) by (nonlinear_arith)
            requires
                q == n / (unit as u128),
                unit >= 2,
        ;
        q + 1
    } else {
        q
    }
}

/// Appends a fixed-point magnitude with `places` decimal places, rounded
/// half to even.
pub fn push_rounded(out: &mut Vec<char>, magnitude: u128, places: u8)
    requires
        places <= 4,
    ensures
        final(out)@ == old(out)@ + rounded_text(magnitude as nat, places as nat),
{
    let unit = pow10_small(4 - places);
    let n = div_round_half_even(magnitude, unit);
    push_places(out, n, places);
}

/// Appends a fixed-point amount in the shortest way.
pub fn push_amount(out: &mut Vec<char>, amount: u64)
    ensures
        final(out)@ == old(out)@ + amount_text(amount),
{
    push_decimal(out, (amount / SCALE) as u128);
    let fraction: u64 = amount % SCALE;
    if fraction != 0 {
        out.push('.');
        if fraction % 10 != 0 {
            push_padded(out, fraction, 4);
        } else if fraction % 100 != 0 {
            push_padded(out, fraction / 10, 3);
        } else if fraction % 1000 != 0 {
            push_padded(out, fraction / 100, 2);
        } else {
            push_padded(out, fraction / 1000, 1);
        }
        assert(out@ =~= old(out)@ + amount_text(amount));
    }
}

/// A whole number as text.
pub fn decimal_string(n: u128) -> (r: String)
    ensures
        r@ == decimal(n as nat),
{
    let digits = decimal_chars(n);
    crate::text::text_of(&digits)
}

/// A fixed-point amount as text, in the shortest way.
pub fn amount_string(amount: u64) -> (r: String)
    ensures
        r@ == amount_text(amount),
{
    let mut out: Vec<char> = Vec::new();
    push_amount(&mut out, amount);
    assert(out@ =~= amount_text(amount));
    crate::text::text_of(&out)
}

/// The magnitude of a number.
pub open spec fn magnitude(value: int) -> nat {
    if value < 0 {
        (-value) as nat
    } else {
        value as nat
    }
}

/// A fixed-point number written with `places` decimal places, rounded
/// half to even, with a minus sign where it is below zero (also where it
/// rounds to zero).
pub open spec fn signed_text(value: int, places: nat) -> Seq<char> {
    if value < 0 {
        seq!['-'] + rounded_text(magnitude(value), places)
    } else {
        rounded_text(magnitude(value), places)
    }
}

/// Appends a fixed-point number with `places` decimal places.
pub fn push_signed(out: &mut Vec<char>, value: i128, places: u8)
    requires
        places <= 4,
        value > -0x8000_0000_0000_0000_0000_0000_0000_0000,
    ensures
        final(out)@ == old(out)@ + signed_text(value as int, places as nat),
{
    if value < 0 {
        out.push('-');
        push_rounded(out, (-value) as u128, places);
        assert(out@ =~= old(out)@ + signed_text(value as int, places as nat));
    } else {
        push_rounded(out, value as u128, places);
    }
}

} // verus!
