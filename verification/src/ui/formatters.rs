//! Numbers and times as the tables show them. Amounts are fixed-point
//! numbers with four decimal places.

use crate::number::{
    decimal, div_round_half_even, div_round_half_up, magnitude, padded, places_text, push_all,
    push_decimal, push_padded, push_places, push_rounded, push_text, round_half_even,
    round_half_up, rounded_text, SCALE,
};
use crate::text::{chars_of, text_of};
use vstd::prelude::*;

verus! {

/// A whole number with a comma between each group of three digits.
pub open spec fn grouped(n: nat) -> Seq<char>
    decreases n,
{
    if n < 1000 {
        decimal(n)
    } else {
        grouped(n / 1000) + seq![','] + padded(n % 1000, 3)
    }
}

/// A price as the tables show it. From 1000 up: rounded to hundredths (a
/// tie away from zero), the whole part with thousands separators, the
/// hundredths only where they are not zero. Below 1000: two decimal places
/// (a tie to the even digit).
pub open spec fn price_text(price: u64) -> Seq<char> {
    if price >= 1000 * SCALE {
        let hundredths = round_half_up(price as nat, 100);
        if hundredths % 100 == 0 {
            grouped(hundredths / 100)
        } else {
            grouped(hundredths / 100) + seq!['.'] + padded(hundredths % 100, 2)
        }
    } else {
        rounded_text(price as nat, 2)
    }
}

/// A price change as the tables show it: a whole number with its sign.
pub open spec fn change_text(change: i64) -> Seq<char> {
    if change >= 0 {
        seq!['+'] + rounded_text(change as nat, 0)
    } else {
        seq!['-'] + rounded_text(magnitude(change as int), 0)
    }
}

/// A magnitude in short form: in trillions, billions, millions or thousands
/// with two decimal places and the letter T, B, M or K, or as a whole number
/// below a thousand.
pub open spec fn compact_text(m: nat) -> Seq<char> {
    if m >= 1_000_000_000_000 * SCALE {
        places_text(round_half_even(m, 100_000_000_000_000), 2) + seq!['T']
    } else if m >= 1_000_000_000 * SCALE {
        places_text(round_half_even(m, 100_000_000_000), 2) + seq!['B']
    } else if m >= 1_000_000 * SCALE {
        places_text(round_half_even(m, 100_000_000), 2) + seq!['M']
    } else if m >= 1_000 * SCALE {
        places_text(round_half_even(m, 100_000), 2) + seq!['K']
    } else {
        rounded_text(m, 0)
    }
}

/// A gain or loss in short form, with its sign.
pub open spec fn pl_text(pl: int) -> Seq<char> {
    if pl >= 0 {
        seq!['+'] + compact_text(magnitude(pl))
    } else {
        seq!['-'] + compact_text(magnitude(pl))
    }
}

/// The first `keep` characters of a text and three dots, where the text is
/// longer than `max_len`; the text itself where it is not. `keep` is
/// `max_len - 3`, or 0 where `max_len` is below 3.
pub open spec fn truncated(s: Seq<char>, max_len: usize) -> Seq<char> {
    if s.len() > max_len {
        let keep = if max_len >= 3 {
            max_len - 3
        } else {
            0
        };
        s.take(keep) + "..."@
    } else {
        s
    }
}

/// How long ago a time was, seen from `now`: nothing for a time that is
/// not set, "just now" within the minute or in the future, else the whole
/// days, hours or minutes that passed.
pub open spec fn relative_time_text(unix_ts: i64, now: i64) -> Seq<char> {
    if unix_ts <= 0 {
        Seq::empty()
    } else if now - unix_ts < 60 {
        "just now"@
    } else if now - unix_ts >= 86_400 {
        decimal(((now - unix_ts) / 86_400) as nat) + "d ago"@
    } else if now - unix_ts >= 3_600 {
        decimal(((now - unix_ts) / 3_600) as nat) + "h ago"@
    } else {
        decimal(((now - unix_ts) / 60) as nat) + "m ago"@
    }
}

/// Appends a whole number with thousands separators.
pub fn push_grouped(out: &mut Vec<char>, n: u128)
    ensures
        final(out)@ == old(out)@ + grouped(n as nat),
{
    let mut groups: Vec<char> = Vec::new();
    let mut m: u128 = n;
    while m >= 1000
        invariant
            grouped(n as nat) == grouped(m as nat) + groups@,
        decreases m,
    {
        let mut group: Vec<char> = Vec::new();
        group.push(',');
        push_padded(&mut group, (m % 1000) as u64, 3);
        let ghost before = groups@;
        push_all(&mut group, &groups);
        groups = group;
        proof {
            assert(groups@ =~= seq![','] + padded((m % 1000) as nat, 3) + before);
            assert(grouped(m as nat) == grouped((m / 1000) as nat) + seq![','] + padded(
                (m % 1000) as nat,
                3,
            ));
            assert(grouped(m as nat) + before =~= grouped((m / 1000) as nat) + groups@);
        }
        m = m / 1000;
    }
    push_decimal(out, m);
    push_all(out, &groups);
    assert(out@ =~= old(out)@ + grouped(n as nat));
}

/// A price as the tables show it.
pub fn format_price(price: u64) -> (r: String)
    ensures
        r@ == price_text(price),
{
    let mut out: Vec<char> = Vec::new();
    if price >= 1000 * SCALE {
        let hundredths = div_round_half_up(price as u128, 100);
        push_grouped(&mut out, hundredths / 100);
        if hundredths % 100 != 0 {
            out.push('.');
            push_padded(&mut out, (hundredths % 100) as u64, 2);
        }
        assert(out@ =~= price_text(price));
    } else {
        push_rounded(&mut out, price as u128, 2);
        assert(out@ =~= price_text(price));
    }
    text_of(&out)
}

/// A price change as the tables show it.
pub fn format_change(change: i64) -> (r: String)
    ensures
        r@ == change_text(change),
{
    let mut out: Vec<char> = Vec::new();
    if change >= 0 {
        out.push('+');
        push_rounded(&mut out, change as u128, 0);
    } else {
        out.push('-');
        push_rounded(&mut out, (-(change as i128)) as u128, 0);
    }
    assert(out@ =~= change_text(change));
    text_of(&out)
}

/// Appends a magnitude in short form.
pub fn push_compact(out: &mut Vec<char>, m: u128)
    ensures
        final(out)@ == old(out)@ + compact_text(m as nat),
{
    if m >= 10_000_000_000_000_000 {
        let n = div_round_half_even(m, 100_000_000_000_000);
        push_places(out, n, 2);
        out.push('T');
    } else if m >= 10_000_000_000_000 {
        let n = div_round_half_even(m, 100_000_000_000);
        push_places(out, n, 2);
        out.push('B');
    } else if m >= 10_000_000_000 {
        let n = div_round_half_even(m, 100_000_000);
        push_places(out, n, 2);
        out.push('M');
    } else if m >= 10_000_000 {
        let n = div_round_half_even(m, 100_000);
        push_places(out, n, 2);
        out.push('K');
    } else {
        push_rounded(out, m, 0);
    }
    assert(out@ =~= old(out)@ + compact_text(m as nat));
}

/// The magnitude of a signed number.
pub fn abs_i128(value: i128) -> (r: u128)
    ensures
        r == magnitude(value as int),
{
    if value >= 0 {
        value as u128
    } else if value == -0x8000_0000_0000_0000_0000_0000_0000_0000 {
        0x8000_0000_0000_0000_0000_0000_0000_0000
    } else {
        (-value) as u128
    }
}

/// The magnitude of a number in short form; the sign is left out.
pub fn format_compact(value: i128) -> (r: String)
    ensures
        r@ == compact_text(magnitude(value as int)),
{
    let mut out: Vec<char> = Vec::new();
    push_compact(&mut out, abs_i128(value));
    assert(out@ =~= compact_text(magnitude(value as int)));
    text_of(&out)
}

/// A gain or loss in short form, with its sign.
pub fn format_pl(pl: i128) -> (r: String)
    ensures
        r@ == pl_text(pl as int),
{
    let mut out: Vec<char> = Vec::new();
    if pl >= 0 {
        out.push('+');
    } else {
        out.push('-');
    }
    push_compact(&mut out, abs_i128(pl));
    assert(out@ =~= pl_text(pl as int));
    text_of(&out)
}

/// A number of shares in short form.
pub fn format_volume(volume: u64) -> (r: String)
    ensures
        r@ == compact_text((volume * SCALE) as nat),
{
    assert(SCALE == 10_000);
    format_compact(volume as i128 * 10_000)
}

/// The magnitude of a market value in short form.
pub fn format_value(value: i128) -> (r: String)
    ensures
        r@ == compact_text(magnitude(value as int)),
{
    format_compact(value)
}

/// A market capitalisation, given in whole currency units, in short form.
pub fn format_market_cap(cap: u64) -> (r: String)
    ensures
        r@ == compact_text((cap * SCALE) as nat),
{
    assert(SCALE == 10_000);
    format_compact(cap as i128 * 10_000)
}

/// A text cut to at most `max_len` characters: where it is longer, its
/// beginning and three dots.
pub fn truncate_str(s: &str, max_len: usize) -> (r: String)
    ensures
        r@ == truncated(s@, max_len),
{
    let chars = chars_of(s);
    if chars.len() > max_len {
        let keep: usize = if max_len >= 3 {
            max_len - 3
        } else {
            0
        };
        let mut out: Vec<char> = Vec::new();
        let mut i: usize = 0;
        while i < keep
            invariant
                i <= keep <= chars.len(),
                out@ == chars@.take(i as int),
            decreases keep - i,
        {
            out.push(chars[i]);
            assert(out@ =~= chars@.take(i + 1));
            i += 1;
        }
        push_text(&mut out, "...");
        text_of(&out)
    } else {
        text_of(&chars)
    }
}

/// How long ago a time was, seen from `now` (both in seconds since the
/// epoch).
pub fn format_relative_time_at(unix_ts: i64, now: i64) -> (r: String)
    ensures
        r@ == relative_time_text(unix_ts, now),
{
    if unix_ts <= 0 {
        return String::new();
    }
    let elapsed: i128 = now as i128 - unix_ts as i128;
    let mut out: Vec<char> = Vec::new();
    if elapsed < 60 {
        push_text(&mut out, "just now");
    } else if elapsed >= 86_400 {
        push_decimal(&mut out, (elapsed / 86_400) as u128);
        push_text(&mut out, "d ago");
    } else if elapsed >= 3_600 {
        push_decimal(&mut out, (elapsed / 3_600) as u128);
        push_text(&mut out, "h ago");
    } else {
        push_decimal(&mut out, (elapsed / 60) as u128);
        push_text(&mut out, "m ago");
    }
    assert(out@ =~= relative_time_text(unix_ts, now));
    text_of(&out)
}

/// How long ago a time was, seen from now by the clock.
pub fn format_relative_time(unix_ts: i64) -> (r: String)
    ensures
        exists|now: i64| r@ == relative_time_text(unix_ts, now),
{
    let now = crate::clock::utc_timestamp();
    format_relative_time_at(unix_ts, now)
}

} // verus!
