//! What holds of every canonical query string: which parameters it names and
//! where they stand.

use crate::encode::{
    canonical_query, decimal_text, escape, form_encode, fraction_text, nat_text, pair_text,
    shifted, value_text,
};
use crate::param::{distinct, index_of, lookup, present, Field, ValueView};
use vstd::utf8::encode_utf8;
use vstd::prelude::*;

verus! {

/// A character that is neither of the two separators `&` and `=`.
pub open spec fn plain(c: char) -> bool {
    c != '&' && c != '='
}

/// A text without separators.
pub open spec fn all_plain(s: Seq<char>) -> bool {
    forall|k: int| 0 <= k < s.len() ==> plain(#[trigger] s[k])
}

/// A parameter called `name` starts at position `i` of `q`: at the
/// beginning or right behind an `&`, and followed by `=`.
pub open spec fn starts_parameter(q: Seq<char>, i: int, name: Seq<char>) -> bool {
    &&& 0 <= i
    &&& i + name.len() < q.len()
    &&& (i == 0 || q[i - 1] == '&')
    &&& q.subrange(i, i + name.len()) == name
    &&& q[i + name.len()] == '='
}

/// The query string `q` has a parameter called `name`.
pub open spec fn names_parameter(q: Seq<char>, name: Seq<char>) -> bool {
    exists|i: int| starts_parameter(q, i, name)
}

/// The query string `q` has the parameter `text` (a `name=value`) as one of
/// its `&`-separated parts.
pub open spec fn has_part(q: Seq<char>, text: Seq<char>) -> bool {
    exists|i: int| is_part(q, i, text)
}

/// `text` is the `&`-separated part of `q` that starts at position `i`.
pub open spec fn is_part(q: Seq<char>, i: int, text: Seq<char>) -> bool {
    &&& 0 <= i
    &&& i + text.len() <= q.len()
    &&& (i == 0 || q[i - 1] == '&')
    &&& q.subrange(i, i + text.len()) == text
    &&& (i + text.len() == q.len() || q[i + text.len()] == '&')
}

/// Field names are made of letters and are not empty.
pub proof fn lemma_field_name_plain(f: Field)
    ensures
        all_plain(f.wire()),
        f.wire().len() > 0,
{
    reveal_strlit("symbol");
    reveal_strlit("side");
    reveal_strlit("type");
    reveal_strlit("timeInForce");
    reveal_strlit("quantity");
    reveal_strlit("quoteOrderQty");
    reveal_strlit("price");
    reveal_strlit("newClientOrderId");
    reveal_strlit("stopPrice");
    reveal_strlit("icebergQty");
    reveal_strlit("newOrderRespType");
    reveal_strlit("recvWindow");
    reveal_strlit("timestamp");
    reveal_strlit("orderId");
    reveal_strlit("origClientOrderId");
    reveal_strlit("startTime");
    reveal_strlit("endTime");
    reveal_strlit("limit");
    reveal_strlit("fromId");
    reveal_strlit("listClientOrderId");
    reveal_strlit("limitClientOrderId");
    reveal_strlit("limitIcebergQty");
    reveal_strlit("stopClientOrderId");
    reveal_strlit("stopLimitPrice");
    reveal_strlit("stopLimitTimeInForce");
    reveal_strlit("stopIcebergQty");
    reveal_strlit("orderListId");
}

/// Two fields with the same name are the same field.
pub proof fn lemma_field_name_injective(f: Field, g: Field)
    requires
        f.wire() == g.wire(),
    ensures
        f == g,
{
    reveal_strlit("symbol");
    reveal_strlit("side");
    reveal_strlit("type");
    reveal_strlit("timeInForce");
    reveal_strlit("quantity");
    reveal_strlit("quoteOrderQty");
    reveal_strlit("price");
    reveal_strlit("newClientOrderId");
    reveal_strlit("stopPrice");
    reveal_strlit("icebergQty");
    reveal_strlit("newOrderRespType");
    reveal_strlit("recvWindow");
    reveal_strlit("timestamp");
    reveal_strlit("orderId");
    reveal_strlit("origClientOrderId");
    reveal_strlit("startTime");
    reveal_strlit("endTime");
    reveal_strlit("limit");
    reveal_strlit("fromId");
    reveal_strlit("listClientOrderId");
    reveal_strlit("limitClientOrderId");
    reveal_strlit("limitIcebergQty");
    reveal_strlit("stopClientOrderId");
    reveal_strlit("stopLimitPrice");
    reveal_strlit("stopLimitTimeInForce");
    reveal_strlit("stopIcebergQty");
    reveal_strlit("orderListId");
    let a = f.wire();
    let b = g.wire();
    assert(a.len() == b.len());
    assert(a[0] == b[0]);
    assert(a[2] == b[2]);
    assert(a[3] == b[3]);
    assert(a[4] == b[4]);
}

proof fn lemma_nat_text_plain(n: nat)
    ensures
        all_plain(nat_text(n)),
        nat_text(n).len() > 0,
    decreases n,
{
    if n >= 10 {
        lemma_nat_text_plain(n / 10);
    }
}

proof fn lemma_fraction_text_plain(units: nat, scale: nat)
    ensures
        all_plain(fraction_text(units, scale)),
    decreases scale,
{
    if scale > 0 {
        lemma_fraction_text_plain(units / 10, (scale - 1) as nat);
    }
}

proof fn lemma_decimal_text_plain(units: nat, scale: nat)
    ensures
        all_plain(decimal_text(units, scale)),
    decreases scale,
{
    if scale == 0 {
        lemma_nat_text_plain(units);
    } else if units % 10 == 0 {
        lemma_decimal_text_plain(units / 10, (scale - 1) as nat);
    } else {
        lemma_nat_text_plain(shifted(units, scale));
        lemma_fraction_text_plain(units, scale);
    }
}

proof fn lemma_form_encode_plain(bytes: Seq<u8>)
    ensures
        all_plain(form_encode(bytes)),
    decreases bytes.len(),
{
    if bytes.len() > 0 {
        lemma_form_encode_plain(bytes.drop_last());
        let b = bytes.last();
        assert(0 <= b as int / 16 < 16 && 0 <= b as int % 16 < 16);
        assert(all_plain(escape(b)));
    }
}

/// A value is written without separators.
pub proof fn lemma_value_text_plain(v: ValueView)
    ensures
        all_plain(value_text(v)),
{
    match v {
        ValueView::Text(t) => {
            lemma_form_encode_plain(encode_utf8(t));
        },
        ValueView::Side(_) => {
            reveal_strlit("BUY");
            reveal_strlit("SELL");
        },
        ValueView::Type(_) => {
            reveal_strlit("LIMIT");
            reveal_strlit("MARKET");
            reveal_strlit("STOP_LOSS");
            reveal_strlit("STOP_LOSS_LIMIT");
            reveal_strlit("TAKE_PROFIT");
            reveal_strlit("TAKE_PROFIT_LIMIT");
            reveal_strlit("LIMIT_MAKER");
        },
        ValueView::TimeInForce(_) => {
            reveal_strlit("GTC");
            reveal_strlit("IOC");
            reveal_strlit("FOK");
        },
        ValueView::RespType(_) => {
            reveal_strlit("ACK");
            reveal_strlit("RESULT");
            reveal_strlit("FULL");
        },
        ValueView::Amount(d) => {
            lemma_decimal_text_plain(d.units as nat, d.scale as nat);
        },
        ValueView::Number(n) => {
            lemma_nat_text_plain(n as nat);
        },
    }
}

/// No field is called `signature`.
pub proof fn lemma_signature_is_no_field(f: Field)
    ensures
        f.wire() != "signature"@,
        all_plain("signature"@),
{
    reveal_strlit("signature");
    reveal_strlit("stopPrice");
    reveal_strlit("timestamp");
    reveal_strlit("startTime");
    lemma_field_name_length(f);
    let a = f.wire();
    let b = "signature"@;
    if a == b {
        assert(a[0] == b[0]);
        assert(a[1] == b[1]);
    }
}

/// Field names have between four and twenty characters, and only three of
/// them have nine.
proof fn lemma_field_name_length(f: Field)
    ensures
        4 <= f.wire().len() <= 20,
        f.wire().len() == 9 ==> f == Field::StopPrice || f == Field::Timestamp || f
            == Field::StartTime,
{
    reveal_strlit("symbol");
    reveal_strlit("side");
    reveal_strlit("type");
    reveal_strlit("timeInForce");
    reveal_strlit("quantity");
    reveal_strlit("quoteOrderQty");
    reveal_strlit("price");
    reveal_strlit("newClientOrderId");
    reveal_strlit("stopPrice");
    reveal_strlit("icebergQty");
    reveal_strlit("newOrderRespType");
    reveal_strlit("recvWindow");
    reveal_strlit("timestamp");
    reveal_strlit("orderId");
    reveal_strlit("origClientOrderId");
    reveal_strlit("startTime");
    reveal_strlit("endTime");
    reveal_strlit("limit");
    reveal_strlit("fromId");
    reveal_strlit("listClientOrderId");
    reveal_strlit("limitClientOrderId");
    reveal_strlit("limitIcebergQty");
    reveal_strlit("stopClientOrderId");
    reveal_strlit("stopLimitPrice");
    reveal_strlit("stopLimitTimeInForce");
    reveal_strlit("stopIcebergQty");
    reveal_strlit("orderListId");
}

/// A text `key=value` that starts with a name and `=` starts with `key`.
proof fn lemma_part_prefix(key: Seq<char>, value: Seq<char>, name: Seq<char>)
    requires
        all_plain(key),
        all_plain(name),
        name.len() < (key + seq!['='] + value).len(),
        (key + seq!['='] + value).subrange(0, name.len() as int) == name,
        (key + seq!['='] + value)[name.len() as int] == '=',
    ensures
        name == key,
{
    let t = key + seq!['='] + value;
    if name.len() < key.len() {
        assert(t[name.len() as int] == key[name.len() as int]);
        assert(plain(key[name.len() as int]));
    } else if name.len() > key.len() {
        assert(t.subrange(0, name.len() as int)[key.len() as int] == t[key.len() as int]);
        assert(plain(name[key.len() as int]));
    } else {
        assert forall|k: int| 0 <= k < name.len() implies name[k] == key[k] by {
            assert(t.subrange(0, name.len() as int)[k] == t[k]);
        }
        assert(name =~= key);
    }
}

/// Where `&key=value` is attached to a query string, a parameter that the
/// result names is called `key` or was named before.
pub proof fn lemma_attached_part(
    q0: Seq<char>,
    key: Seq<char>,
    value: Seq<char>,
    i: int,
    name: Seq<char>,
)
    requires
        all_plain(key),
        all_plain(value),
        all_plain(name),
        starts_parameter(q0 + seq!['&'] + (key + seq!['='] + value), i, name),
    ensures
        name == key || starts_parameter(q0, i, name),
{
    let t = key + seq!['='] + value;
    let q = q0 + seq!['&'] + t;
    let m = q0.len() as int;
    assert(q[m] == '&');
    assert forall|k: int| 0 <= k < t.len() implies #[trigger] t[k] != '&' by {
        if k < key.len() {
            assert(plain(key[k]));
        } else if k > key.len() {
            assert(plain(value[k - key.len() - 1]));
        }
    }
    if i >= m + 1 {
        if i == m + 1 {
            assert(q.subrange(i, i + name.len()) =~= t.subrange(0, name.len() as int));
            assert(q[i + name.len()] == t[name.len() as int]);
            lemma_part_prefix(key, value, name);
        } else {
            assert(q[i - 1] == t[i - 1 - (m + 1)]);
        }
    } else if i + name.len() < m {
        assert(q.subrange(i, i + name.len()) =~= q0.subrange(i, i + name.len()));
        assert(q[i + name.len()] == q0[i + name.len()]);
        if i > 0 {
            assert(q[i - 1] == q0[i - 1]);
        }
    } else {
        if m < i + name.len() {
            assert(q.subrange(i, i + name.len())[m - i] == q[m]);
            assert(plain(name[m - i]));
        }
    }
}

/// Where `&key=value` is attached to a query string, its parts stay.
pub proof fn lemma_attached_keeps_parts(q0: Seq<char>, tail: Seq<char>, text: Seq<char>)
    requires
        has_part(q0, text),
        tail.len() > 0,
        tail[0] == '&',
    ensures
        has_part(q0 + tail, text),
{
    let q = q0 + tail;
    let m = q0.len() as int;
    let i = choose|i: int| is_part(q0, i, text);
    assert(q.subrange(i, i + text.len()) =~= q0.subrange(i, i + text.len()));
    if i > 0 {
        assert(q[i - 1] == q0[i - 1]);
    }
    if i + text.len() == m {
        assert(q[m] == tail[0]);
    } else {
        assert(q[i + text.len()] == q0[i + text.len()]);
    }
    assert(is_part(q, i, text));
}

/// Every parameter that a canonical query string names belongs to a field
/// of the parameter set.
pub proof fn lemma_named_is_set(s: Seq<(Field, ValueView)>, i: int, name: Seq<char>)
    requires
        all_plain(name),
        starts_parameter(canonical_query(s), i, name),
    ensures
        exists|j: int| 0 <= j < s.len() && (#[trigger] s[j]).0.wire() == name,
    decreases s.len(),
{
    let q = canonical_query(s);
    if s.len() == 0 {
    } else {
        let key = s.last().0.wire();
        let value = value_text(s.last().1);
        lemma_field_name_plain(s.last().0);
        lemma_value_text_plain(s.last().1);
        if s.len() == 1 {
            assert(s[0] == s.last());
            assert(Seq::<char>::empty() + seq!['&'] + (key + seq!['='] + value) =~= seq!['&'] + q);
            let q1 = seq!['&'] + q;
            assert(q1.subrange(i + 1, i + 1 + name.len()) =~= q.subrange(i, i + name.len()));
            assert(q1[i] == if i == 0 {
                '&'
            } else {
                q[i - 1]
            });
            assert(q1[i + 1 + name.len()] == q[i + name.len()]);
            assert(starts_parameter(q1, i + 1, name));
            lemma_attached_part(Seq::empty(), key, value, i + 1, name);
            assert(s[0].0.wire() == name);
        } else {
            let head = s.drop_last();
            let q0 = canonical_query(head);
            assert(q =~= q0 + seq!['&'] + (key + seq!['='] + value));
            lemma_attached_part(q0, key, value, i, name);
            if name == key {
                assert(s[s.len() - 1].0.wire() == name);
            } else {
                lemma_named_is_set(head, i, name);
                let j = choose|j: int|
                    0 <= j < head.len() && (#[trigger] head[j]).0.wire() == name;
                assert(s[j] == head[j]);
            }
        }
    }
}

/// Every parameter of the set stands in the canonical query string as one of
/// its `&`-separated parts.
pub proof fn lemma_set_is_part(s: Seq<(Field, ValueView)>, j: int)
    requires
        0 <= j < s.len(),
    ensures
        has_part(canonical_query(s), pair_text(s[j])),
    decreases s.len(),
{
    let q = canonical_query(s);
    let t = pair_text(s[j]);
    if s.len() == 1 {
        assert(q.subrange(0, t.len() as int) =~= t);
        assert(is_part(q, 0, t));
    } else {
        let head = s.drop_last();
        let q0 = canonical_query(head);
        let last = pair_text(s.last());
        let m = q0.len() as int;
        assert(q == q0 + seq!['&'] + last);
        if j == s.len() - 1 {
            assert(q.subrange(m + 1, m + 1 + t.len()) =~= t);
            assert(q[m] == '&');
            assert(is_part(q, m + 1, t));
        } else {
            lemma_set_is_part(head, j);
            assert(head[j] == s[j]);
            let i = choose|i: int| is_part(q0, i, t);
            assert(q.subrange(i, i + t.len()) =~= q0.subrange(i, i + t.len()));
            if i > 0 {
                assert(q[i - 1] == q0[i - 1]);
            }
            if i + t.len() == m {
                assert(q[m] == '&');
            } else {
                assert(q[i + t.len()] == q0[i + t.len()]);
            }
            assert(is_part(q, i, t));
        }
    }
}

/// Presence alone decides what is serialised: a field that is not set is
/// not named anywhere in the canonical query string.
pub proof fn law_unset_field_not_named(s: Seq<(Field, ValueView)>, f: Field)
    requires
        !present(s, f),
    ensures
        !names_parameter(canonical_query(s), f.wire()),
{
    if names_parameter(canonical_query(s), f.wire()) {
        let i = choose|i: int| starts_parameter(canonical_query(s), i, f.wire());
        lemma_field_name_plain(f);
        lemma_named_is_set(s, i, f.wire());
        let j = choose|j: int| 0 <= j < s.len() && (#[trigger] s[j]).0.wire() == f.wire();
        lemma_field_name_injective(s[j].0, f);
        assert(s[j].0 == f);
    }
}

/// A field that is set stands in the canonical query string, as
/// `name=value` with the value it holds.
pub proof fn law_set_field_serialised(s: Seq<(Field, ValueView)>, f: Field)
    requires
        distinct(s),
        present(s, f),
    ensures
        has_part(canonical_query(s), pair_text((f, lookup(s, f)->0))),
        names_parameter(canonical_query(s), f.wire()),
{
    let j = index_of(s, f);
    lemma_set_is_part(s, j);
    let q = canonical_query(s);
    let t = pair_text(s[j]);
    let i = choose|i: int| is_part(q, i, t);
    let w = f.wire();
    assert(q.subrange(i, i + w.len()) =~= w) by {
        assert forall|k: int| 0 <= k < w.len() implies q.subrange(i, i + w.len())[k] == w[k] by {
            assert(q.subrange(i, i + t.len())[k] == q[i + k]);
        }
    }
    assert(q[i + w.len()] == '=') by {
        assert(q.subrange(i, i + t.len())[w.len() as int] == q[i + w.len()]);
    }
    assert(starts_parameter(q, i, w));
}

/// Where the parameter at position `j` starts in the canonical query string.
pub open spec fn part_offset(s: Seq<(Field, ValueView)>, j: int) -> int {
    if j == 0 {
        0
    } else {
        canonical_query(s.take(j)).len() as int + 1
    }
}

/// Insertion order is serialisation order: the parameter at position `j`
/// stands at `part_offset(s, j)`, and the next one starts right behind it
/// and the `&` that follows it.
pub proof fn law_parts_in_order(s: Seq<(Field, ValueView)>, j: int)
    requires
        0 <= j < s.len(),
    ensures
        is_part(canonical_query(s), part_offset(s, j), pair_text(s[j])),
        j + 1 < s.len() ==> part_offset(s, j + 1) == part_offset(s, j) + pair_text(s[j]).len() + 1,
    decreases s.len(),
{
    let q = canonical_query(s);
    let t = pair_text(s[j]);
    if j + 1 < s.len() {
        let next = s.take(j + 1);
        assert(next.last() == s[j]);
        assert(next.drop_last() =~= s.take(j));
        if j == 0 {
            assert(next[0] == s[0]);
        }
    }
    if s.len() == 1 {
        assert(q.subrange(0, t.len() as int) =~= t);
    } else {
        let head = s.drop_last();
        let q0 = canonical_query(head);
        let m = q0.len() as int;
        assert(q == q0 + seq!['&'] + pair_text(s.last()));
        assert(q[m] == '&');
        if j == s.len() - 1 {
            assert(s.take(j) =~= head);
            assert(q.subrange(m + 1, m + 1 + t.len()) =~= t);
        } else {
            law_parts_in_order(head, j);
            assert(head[j] == s[j]);
            assert(head.take(j) =~= s.take(j));
            let i = part_offset(s, j);
            assert(q.subrange(i, i + t.len()) =~= q0.subrange(i, i + t.len()));
            if i > 0 {
                assert(q[i - 1] == q0[i - 1]);
            }
            if i + t.len() < m {
                assert(q[i + t.len()] == q0[i + t.len()]);
            }
        }
    }
}

} // verus!
