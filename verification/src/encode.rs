//! Canonical serialisation of a parameter set into a query string.
//!
//! Parameters appear in insertion order as `name=value`, joined by `&`. Values
//! are written in `application/x-www-form-urlencoded` form, so that a value can
//! never contain a separator.

use crate::param::{Field, Param, Parameters, Value, ValueView};
use vstd::prelude::*;
use vstd::string::*;
use vstd::utf8::encode_utf8;

verus! {

/// String::push appends one character.
pub assume_specification[ String::push ](s: &mut String, c: char)
    ensures
        final(s)@ == old(s)@.push(c),
;

/// Bytes that are written unchanged: ASCII letters, digits and `*`, `-`, `.`, `_`.
pub open spec fn unreserved(b: u8) -> bool {
    ||| b == 0x2a
    ||| b == 0x2d
    ||| b == 0x2e
    ||| b == 0x5f
    ||| 0x30 <= b <= 0x39
    ||| 0x41 <= b <= 0x5a
    ||| 0x61 <= b <= 0x7a
}

/// The upper-case hexadecimal digit for `n` in `0..16`.
pub open spec fn hex_upper(n: int) -> char {
    if n < 10 {
        (0x30 + n) as char
    } else {
        (0x37 + n) as char
    }
}

/// How one byte of a value is written.
pub open spec fn escape(b: u8) -> Seq<char> {
    if unreserved(b) {
        seq![b as char]
    } else if b == 0x20 {
        seq!['+']
    } else {
        seq!['%', hex_upper(b as int / 16), hex_upper(b as int % 16)]
    }
}

/// How a sequence of bytes is written: byte by byte.
pub open spec fn form_encode(bytes: Seq<u8>) -> Seq<char>
    decreases bytes.len(),
{
    if bytes.len() == 0 {
        Seq::empty()
    } else {
        form_encode(bytes.drop_last()) + escape(bytes.last())
    }
}

/// The decimal digit for `d` in `0..10`.
pub open spec fn digit(d: int) -> char {
    (0x30 + d) as char
}

/// A natural number in decimal, without leading zeros.
pub open spec fn nat_text(n: nat) -> Seq<char>
    decreases n,
{
    if n < 10 {
        seq![digit(n as int)]
    } else {
        nat_text(n / 10) + seq![digit((n % 10) as int)]
    }
}

/// `units` without its last `scale` decimal digits.
pub open spec fn shifted(units: nat, scale: nat) -> nat
    decreases scale,
{
    if scale == 0 {
        units
    } else {
        shifted(units / 10, (scale - 1) as nat)
    }
}

/// The last `scale` decimal digits of `units`, with leading zeros.
pub open spec fn fraction_text(units: nat, scale: nat) -> Seq<char>
    decreases scale,
{
    if scale == 0 {
        Seq::empty()
    } else {
        fraction_text(units / 10, (scale - 1) as nat) + seq![digit((units % 10) as int)]
    }
}

/// The number `units / 10^scale` in decimal: trailing zeros of the fraction
/// are dropped, and so is the point when no fraction is left.
pub open spec fn decimal_text(units: nat, scale: nat) -> Seq<char>
    decreases scale,
{
    if scale == 0 {
        nat_text(units)
    } else if units % 10 == 0 {
        decimal_text(units / 10, (scale - 1) as nat)
    } else {
        nat_text(shifted(units, scale)) + seq!['.'] + fraction_text(units, scale)
    }
}

/// How a value is written in the query string.
pub open spec fn value_text(v: ValueView) -> Seq<char> {
    match v {
        ValueView::Text(s) => form_encode(encode_utf8(s)),
        ValueView::Side(s) => s.wire(),
        ValueView::Type(t) => t.wire(),
        ValueView::TimeInForce(t) => t.wire(),
        ValueView::RespType(r) => r.wire(),
        ValueView::Amount(d) => decimal_text(d.units as nat, d.scale as nat),
        ValueView::Number(n) => nat_text(n as nat),
    }
}

/// One parameter as `name=value`.
pub open spec fn pair_text(p: (Field, ValueView)) -> Seq<char> {
    p.0.wire() + seq!['='] + value_text(p.1)
}

/// The canonical query string of a parameter set: its parameters in order,
/// joined by `&`.
pub open spec fn canonical_query(s: Seq<(Field, ValueView)>) -> Seq<char>
    decreases s.len(),
{
    if s.len() == 0 {
        Seq::empty()
    } else if s.len() == 1 {
        pair_text(s[0])
    } else {
        canonical_query(s.drop_last()) + seq!['&'] + pair_text(s.last())
    }
}

fn hex_upper_char(n: u8) -> (c: char)
    requires
        n < 16,
    ensures
        c == hex_upper(n as int),
{
    if n < 10 {
        (0x30 + n) as char
    } else {
        (0x37 + n) as char
    }
}

fn is_unreserved(b: u8) -> (r: bool)
    ensures
        r == unreserved(b),
{
    b == 0x2a || b == 0x2d || b == 0x2e || b == 0x5f || (0x30 <= b && b <= 0x39) || (0x41 <= b
        && b <= 0x5a) || (0x61 <= b && b <= 0x7a)
}

/// Appends one byte of a value in encoded form.
pub fn push_escaped(out: &mut String, b: u8)
    ensures
        final(out)@ == old(out)@ + escape(b),
{
    if is_unreserved(b) {
        out.push(b as char);
    } else if b == 0x20 {
        out.push('+');
    } else {
        out.push('%');
        out.push(hex_upper_char(b / 16));
        out.push(hex_upper_char(b % 16));
    }
    assert(out@ =~= old(out)@ + escape(b));
}

/// Appends the encoded form of `bytes`.
pub fn push_encoded(out: &mut String, bytes: &[u8])
    ensures
        final(out)@ == old(out)@ + form_encode(bytes@),
{
    let mut i: usize = 0;
    assert(bytes@.take(0) =~= Seq::<u8>::empty());
    while i < bytes.len()
        invariant
            i <= bytes.len(),
            out@ == old(out)@ + form_encode(bytes@.take(i as int)),
        decreases bytes.len() - i,
    {
        push_escaped(out, bytes[i]);
        proof {
            let next = bytes@.take(i + 1);
            assert(next.drop_last() =~= bytes@.take(i as int));
            assert(next.last() == bytes@[i as int]);
            assert(out@ =~= old(out)@ + form_encode(next));
        }
        i += 1;
    }
    assert(bytes@.take(bytes.len() as int) =~= bytes@);
}

/// Appends `n` in decimal.
pub fn push_number(out: &mut String, n: u64)
    ensures
        final(out)@ == old(out)@ + nat_text(n as nat),
    decreases n,
{
    if n >= 10 {
        push_number(out, n / 10);
    }
    out.push((0x30 + (n % 10) as u8) as char);
    assert(out@ =~= old(out)@ + nat_text(n as nat));
}

fn push_fraction(out: &mut String, units: u64, scale: u8)
    ensures
        final(out)@ == old(out)@ + fraction_text(units as nat, scale as nat),
    decreases scale,
{
    if scale > 0 {
        push_fraction(out, units / 10, scale - 1);
        out.push((0x30 + (units % 10) as u8) as char);
    }
    assert(out@ =~= old(out)@ + fraction_text(units as nat, scale as nat));
}

fn shift(units: u64, scale: u8) -> (r: u64)
    ensures
        r == shifted(units as nat, scale as nat),
    decreases scale,
{
    if scale == 0 {
        units
    } else {
        shift(units / 10, scale - 1)
    }
}

/// Appends the decimal number `units / 10^scale`.
pub fn push_decimal(out: &mut String, units: u64, scale: u8)
    ensures
        final(out)@ == old(out)@ + decimal_text(units as nat, scale as nat),
{
    let mut u: u64 = units;
    let mut s: u8 = scale;
    while s > 0 && u % 10 == 0
        invariant
            decimal_text(u as nat, s as nat) == decimal_text(units as nat, scale as nat),
        decreases s,
    {
        u = u / 10;
        s = s - 1;
    }
    if s == 0 {
        push_number(out, u);
    } else {
        push_number(out, shift(u, s));
        out.push('.');
        push_fraction(out, u, s);
    }
    assert(out@ =~= old(out)@ + decimal_text(u as nat, s as nat));
}

/// Appends a value as it is written in the query string.
pub fn push_value(out: &mut String, value: &Value)
    ensures
        final(out)@ == old(out)@ + value_text(value@),
{
    match value {
        Value::Text(s) => push_encoded(out, s.as_bytes()),
        Value::Side(s) => out.append(s.as_str()),
        Value::Type(t) => out.append(t.as_str()),
        Value::TimeInForce(t) => out.append(t.as_str()),
        Value::RespType(r) => out.append(r.as_str()),
        Value::Amount(d) => push_decimal(out, d.units, d.scale),
        Value::Number(n) => push_number(out, *n),
    }
}

/// Appends one parameter as `name=value`.
pub fn push_pair(out: &mut String, p: &Param)
    ensures
        final(out)@ == old(out)@ + pair_text(p@),
{
    out.append(p.field.as_str());
    out.push('=');
    push_value(out, &p.value);
    assert(out@ =~= old(out)@ + pair_text(p@));
}

/// The canonical query string of `params`.
pub fn query_string(params: &Parameters) -> (q: String)
    ensures
        q@ == canonical_query(params@),
{
    let mut q = String::new();
    let n = params.len();
    let mut i: usize = 0;
    assert(params@.take(0) =~= Seq::<(Field, ValueView)>::empty());
    while i < n
        invariant
            n == params@.len(),
            i <= n,
            q@ == canonical_query(params@.take(i as int)),
        decreases n - i,
    {
        if i > 0 {
            q.push('&');
        }
        let p = params.entry(i);
        push_pair(&mut q, &p);
        proof {
            let next = params@.take(i + 1);
            assert(next.drop_last() =~= params@.take(i as int));
            assert(next.last() == params@[i as int]);
            if i == 0 {
                assert(next[0] == params@[0]);
                assert(q@ =~= pair_text(params@[0]));
            } else {
                assert(q@ =~= canonical_query(next.drop_last()) + seq!['&'] + pair_text(
                    next.last(),
                ));
            }
        }
        i += 1;
    }
    assert(params@.take(n as int) =~= params@);
    q
}

/// Equal numbers are written alike: a zero at the end of the fraction
/// changes nothing, so `20.00` and `20` have the same text.
pub proof fn law_decimal_text_canonical(units: nat, scale: nat)
    ensures
        decimal_text(units * 10, scale + 1) == decimal_text(units, scale),
{
    assert((units * 10) % 10 == 0 && (units * 10) / 10 == units);
}

/// A whole number is written as the natural number it is.
pub proof fn law_whole_decimal_text(units: nat)
    ensures
        decimal_text(units, 0) == nat_text(units),
{
}

/// The text of a natural number has no leading zero, but for zero itself.
pub proof fn law_nat_text_leading(n: nat)
    ensures
        nat_text(n).len() >= 1,
        nat_text(n)[0] == '0' <==> n == 0,
        forall|k: int| 0 <= k < nat_text(n).len() ==> '0' <= #[trigger] nat_text(n)[k] <= '9',
    decreases n,
{
    if n >= 10 {
        law_nat_text_leading(n / 10);
    }
}

} // verus!
