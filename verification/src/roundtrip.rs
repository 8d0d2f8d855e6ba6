//! The codec's inversion law: parsing the serialised form of a well-formed
//! document yields exactly that document. Well-formed means every integer
//! node fits the wire's signed 64-bit range — which the executable document
//! type guarantees by construction.

use vstd::prelude::*;

use crate::json::{
    json_fields_view, json_seq_view, spec_escape_char, spec_escape_str, spec_digit_char,
    spec_digits, spec_hex_char, spec_int_chars, spec_ser, spec_ser_field, spec_ser_fields_rest,
    spec_ser_items_rest, spec_ser_string, Json, JsonValue,
};
use crate::parse::{
    spec_digit_run_end, spec_digits_value, spec_is_digit, spec_is_ws, spec_parse_json,
    spec_parse_value, spec_skip_ws,
};

verus! {

/// Every integer node fits the signed 64-bit range.
pub open spec fn wf_json(j: Json) -> bool
    decreases j,
{
    match j {
        Json::Null => true,
        Json::Bool(_) => true,
        Json::Int(n) => i64::MIN <= n <= i64::MAX,
        Json::Str(_) => true,
        Json::Arr(items) => forall|k: int| 0 <= k < items.len() ==> wf_json(#[trigger] items[k]),
        Json::Obj(fields) => forall|k: int|
            0 <= k < fields.len() ==> wf_json(#[trigger] fields[k].1),
    }
}

/// Decimal digit strings are non-empty, hold digits only, and carry no
/// useless leading zero.
pub proof fn lemma_digits_shape(n: nat)
    ensures
        spec_digits(n).len() >= 1,
        forall|k: int| 0 <= k < spec_digits(n).len() ==> spec_is_digit(#[trigger] spec_digits(n)[k]),
        n > 0 ==> spec_digits(n)[0] != '0',
        n == 0 ==> spec_digits(n) == seq!['0'],
    decreases n,
{
    if n < 10 {
        assert(spec_digits(n) == seq![spec_digit_char(n as int)]);
        assert((spec_digit_char(n as int) as u32) == 48 + n);
        assert(('0' as u32) == 48);
    } else {
        lemma_digits_shape(n / 10);
        assert(spec_digits(n) == spec_digits(n / 10).push(spec_digit_char((n % 10) as int)));
        assert((spec_digit_char((n % 10) as int) as u32) == 48 + (n % 10));
        assert(spec_digits(n)[0] == spec_digits(n / 10)[0]);
    }
}

/// A digit run ends exactly where the digits end.
pub proof fn lemma_digit_run(s: Seq<char>, a: int, b: int)
    requires
        0 <= a <= b <= s.len(),
        forall|k: int| a <= k < b ==> spec_is_digit(#[trigger] s[k]),
        b == s.len() || !spec_is_digit(s[b]),
    ensures
        spec_digit_run_end(s, a) == b,
    decreases b - a,
{
    if a < b {
        lemma_digit_run(s, a + 1, b);
    }
}

/// Reading back the decimal digits of `n` yields `n`.
pub proof fn lemma_digits_value(s: Seq<char>, a: int, n: nat)
    requires
        0 <= a,
        a + spec_digits(n).len() <= s.len(),
        s.subrange(a, a + spec_digits(n).len() as int) == spec_digits(n),
    ensures
        spec_digits_value(s, a, a + spec_digits(n).len() as int) == n,
    decreases n,
{
    let d = spec_digits(n);
    let b = a + d.len();
    if n < 10 {
        assert(d == seq![spec_digit_char(n as int)]);
        assert(s[a] == d[0]);
        assert((s[a] as u32) == 48 + n);
        assert(spec_digits_value(s, a, b) == spec_digits_value(s, a, b - 1) * 10 + (((s[b
            - 1] as u32) - 48) as nat));
    } else {
        let dp = spec_digits(n / 10);
        assert(d == dp.push(spec_digit_char((n % 10) as int)));
        assert(s.subrange(a, a + dp.len() as int) =~= dp);
        lemma_digits_value(s, a, n / 10);
        assert(s[b - 1] == d[d.len() - 1]);
        assert((s[b - 1] as u32) == 48 + (n % 10));
        assert(spec_digits_value(s, a, b) == spec_digits_value(s, a, b - 1) * 10 + (((s[b
            - 1] as u32) - 48) as nat));
        assert(spec_digits_value(s, a, b) == (n / 10) * 10 + (n % 10));
    }
}

/// A position after a serialised token either ends the text or carries a
/// separator: a comma, a closing bracket or a closing brace.
pub open spec fn sep_at(s: Seq<char>, p: int) -> bool {
    p == s.len() || s[p] == ',' || s[p] == ']' || s[p] == '}'
}

/// Parsing reads back a serialised integer, exactly and entirely.
pub proof fn lemma_parse_number_ser(s: Seq<char>, i: int, n: int)
    requires
        i64::MIN <= n <= i64::MAX,
        0 <= i,
        i + spec_int_chars(n).len() <= s.len(),
        s.subrange(i, i + spec_int_chars(n).len() as int) == spec_int_chars(n),
        sep_at(s, i + spec_int_chars(n).len() as int),
    ensures
        crate::parse::spec_parse_number(s, i) == Some(
            (Json::Int(n), i + spec_int_chars(n).len() as int),
        ),
{
    let t = spec_int_chars(n);
    let b = i + t.len();
    let m: nat = if n < 0 {
        (-n) as nat
    } else {
        n as nat
    };
    lemma_digits_shape(m);
    let d0 = if n < 0 {
        i + 1
    } else {
        i
    };
    assert forall|k: int| i <= k < b implies s[k] == t[k - i] by {
        assert(s.subrange(i, b)[k - i] == t[k - i]);
    }
    if n < 0 {
        assert(t == seq!['-'] + spec_digits(m));
        assert(s[i] == '-');
        assert(s.subrange(d0, b) =~= spec_digits(m));
    } else {
        assert(s.subrange(d0, b) =~= spec_digits(m));
        assert(s[i] == spec_digits(m)[0]);
        assert(spec_is_digit(s[i]));
        assert(('-' as u32) == 45);
        assert(s[i] != '-');
    }
    assert forall|k: int| d0 <= k < b implies spec_is_digit(#[trigger] s[k]) by {
        assert(s[k] == spec_digits(m)[k - d0]);
    }
    assert(b == s.len() || !spec_is_digit(s[b]) && s[b] != '.' && s[b] != 'e' && s[b] != 'E') by {
        if b < s.len() {
            assert((',' as u32) == 44 && (']' as u32) == 93 && ('}' as u32) == 125);
            assert(('.' as u32) == 46 && ('e' as u32) == 101 && ('E' as u32) == 69);
        }
    }
    lemma_digit_run(s, d0, b);
    assert(s[d0] == spec_digits(m)[0]);
    if m > 0 {
        assert(s[d0] != '0');
    } else {
        assert(spec_digits(m).len() == 1);
        assert(b == d0 + 1);
    }
    lemma_digits_value(s, d0, m);
    assert(m < 0x8000000000000000 || (n < 0 && m == 0x8000000000000000));
}

/// Parsing reads back an escaped string body up to its closing quote.
pub proof fn lemma_parse_string_body_ser(s: Seq<char>, i: int, t: Seq<char>)
    requires
        0 <= i,
        i + spec_escape_str(t).len() + 1 <= s.len(),
        s.subrange(i, i + spec_escape_str(t).len() as int) == spec_escape_str(t),
        s[i + spec_escape_str(t).len()] == '"',
    ensures
        crate::parse::spec_parse_string_body(s, i) == Some(
            (t, i + spec_escape_str(t).len() + 1),
        ),
    decreases t.len(),
{
    let e = spec_escape_str(t);
    let b = i + e.len();
    assert forall|k: int| i <= k < b implies s[k] == e[k - i] by {
        assert(s.subrange(i, b)[k - i] == e[k - i]);
    }
    if t.len() == 0 {
        assert(t =~= Seq::<char>::empty());
    } else {
        let c = t[0];
        let ec = spec_escape_char(c);
        let rest = spec_escape_str(t.drop_first());
        assert(e == ec + rest);
        let i2 = i + ec.len();
        assert(s.subrange(i2, b) =~= rest);
        lemma_parse_string_body_ser(s, i2, t.drop_first());
        assert(seq![c] + t.drop_first() =~= t);
        assert(('"' as u32) == 34 && ('\\' as u32) == 92);
        if c == '"' || c == '\\' {
            assert(s[i] == '\\' && s[i + 1] == ec[1]);
        } else if c == '\u{08}' {
            assert(s[i] == '\\' && s[i + 1] == 'b');
            assert(('b' as u32) == 98);
        } else if c == '\u{0c}' {
            assert(s[i] == '\\' && s[i + 1] == 'f');
            assert(('f' as u32) == 102);
        } else if c == '\n' {
            assert(s[i] == '\\' && s[i + 1] == 'n');
            assert(('n' as u32) == 110);
        } else if c == '\r' {
            assert(s[i] == '\\' && s[i + 1] == 'r');
            assert(('r' as u32) == 114);
        } else if c == '\t' {
            assert(s[i] == '\\' && s[i + 1] == 't');
            assert(('t' as u32) == 116);
        } else if (c as u32) < 32 {
            let hi = ((c as u32) / 16) as int;
            let lo = ((c as u32) % 16) as int;
            assert(s[i] == '\\' && s[i + 1] == 'u' && s[i + 2] == '0' && s[i + 3] == '0');
            assert(s[i + 4] == spec_hex_char(hi) && s[i + 5] == spec_hex_char(lo));
            assert(('u' as u32) == 117 && ('0' as u32) == 48);
            assert(crate::parse::spec_hex_val('0') == 0);
            assert(crate::parse::spec_hex_val(spec_hex_char(hi)) == hi);
            assert(crate::parse::spec_hex_val(spec_hex_char(lo)) == lo);
            assert(hi * 16 + lo == c as u32);
            let u: u32 = c as u32;
            let w: u8 = u as u8;
            assert(w as u32 == u);
            assert((w as char) as u32 == w as u32);
            vstd::utf8::char_u32_cast(c, u);
            vstd::utf8::char_u32_cast(w as char, u);
            assert((((c as u32) as u8) as char) == c);
        } else {
            assert(ec == seq![c]);
            assert(s[i] == c);
        }
    }
}

/// A serialised document is non-empty and starts with a value's first
/// character: never a blank, a separator, or a closing token.
pub proof fn lemma_ser_first(j: Json)
    ensures
        spec_ser(j).len() >= 1,
        !spec_is_ws(spec_ser(j)[0]),
        spec_ser(j)[0] != ',' && spec_ser(j)[0] != ']' && spec_ser(j)[0] != '}' && spec_ser(j)[0]
            != ':',
{
    reveal_strlit("null");
    reveal_strlit("true");
    reveal_strlit("false");
    match j {
        Json::Null => {},
        Json::Bool(_) => {},
        Json::Int(n) => {
            let m: nat = if n < 0 {
                (-n) as nat
            } else {
                n as nat
            };
            lemma_digits_shape(m);
            if n >= 0 {
                assert(spec_ser(j)[0] == spec_digits(m)[0]);
                assert(spec_is_digit(spec_ser(j)[0]));
            }
        },
        Json::Str(_) => {},
        Json::Arr(_) => {},
        Json::Obj(_) => {},
    }
}

/// Parsing reads back one serialised document, exactly and entirely.
#[verifier::rlimit(100)]
pub proof fn lemma_parse_value_ser(s: Seq<char>, i: int, j: Json)
    requires
        wf_json(j),
        0 <= i,
        i + spec_ser(j).len() <= s.len(),
        s.subrange(i, i + spec_ser(j).len() as int) == spec_ser(j),
        sep_at(s, i + spec_ser(j).len() as int),
    ensures
        spec_parse_value(s, i) == Some((j, i + spec_ser(j).len() as int)),
    decreases j, 0int,
{
    reveal_strlit("null");
    reveal_strlit("true");
    reveal_strlit("false");
    let t = spec_ser(j);
    let b = i + t.len();
    lemma_ser_first(j);
    assert forall|k: int| i <= k < b implies s[k] == t[k - i] by {
        assert(s.subrange(i, b)[k - i] == t[k - i]);
    }
    match j {
        Json::Null => {
            assert(s.subrange(i, i + 4) =~= "null"@);
        },
        Json::Bool(v) => {
            if v {
                assert(s.subrange(i, i + 4) =~= "true"@);
                assert(s[i] == 't');
                assert(!crate::parse::spec_match_at(s, i, "null"@)) by {
                    if crate::parse::spec_match_at(s, i, "null"@) {
                        assert(s.subrange(i, i + 4)[0] == 'n');
                    }
                }
            } else {
                assert(s.subrange(i, i + 5) =~= "false"@);
                assert(s[i] == 'f');
                assert(!crate::parse::spec_match_at(s, i, "null"@)) by {
                    if crate::parse::spec_match_at(s, i, "null"@) {
                        assert(s.subrange(i, i + 4)[0] == 'n');
                    }
                }
                assert(!crate::parse::spec_match_at(s, i, "true"@)) by {
                    if crate::parse::spec_match_at(s, i, "true"@) {
                        assert(s.subrange(i, i + 4)[0] == 't');
                    }
                }
            }
        },
        Json::Int(n) => {
            assert(s[i] == t[0]);
            assert(('n' as u32) == 110 && ('t' as u32) == 116 && ('f' as u32) == 102);
            assert(('-' as u32) == 45);
            assert((t[0] as u32) == 45 || spec_is_digit(t[0])) by {
                if n >= 0 {
                    lemma_digits_shape(n as nat);
                }
            }
            lemma_no_literal_match(s, i, t[0]);
            assert(('"' as u32) == 34 && ('[' as u32) == 91 && ('{' as u32) == 123);
            lemma_parse_number_ser(s, i, n);
        },
        Json::Str(cs) => {
            assert(s[i] == '"');
            lemma_no_literal_match(s, i, '"');
            assert(s.subrange(i + 1, i + 1 + spec_escape_str(cs).len() as int) =~= spec_escape_str(
                cs,
            ));
            assert(s[i + 1 + spec_escape_str(cs).len()] == '"');
            lemma_parse_string_body_ser(s, i + 1, cs);
        },
        Json::Arr(items) => {
            assert(s[i] == '[');
            lemma_no_literal_match(s, i, '[');
            if items.len() == 0 {
                assert(s[i + 1] == ']');
                assert(spec_skip_ws(s, i + 1) == i + 1);
                assert(items =~= Seq::<Json>::empty());
            } else {
                let body = spec_ser(items[0]) + spec_ser_items_rest(items.drop_first());
                assert(t == seq!['['] + body + seq![']']);
                lemma_ser_first(items[0]);
                assert(s[i + 1] == spec_ser(items[0])[0]);
                assert(spec_skip_ws(s, i + 1) == i + 1);
                assert(s[i + 1] != ']');
                assert(s.subrange(i + 1, i + 1 + body.len() as int) =~= body);
                assert(s[i + 1 + body.len()] == ']');
                lemma_parse_items_ser(s, i + 1, items);
            }
        },
        Json::Obj(fields) => {
            assert(s[i] == '{');
            lemma_no_literal_match(s, i, '{');
            if fields.len() == 0 {
                assert(s[i + 1] == '}');
                assert(spec_skip_ws(s, i + 1) == i + 1);
                assert(fields =~= Seq::<(Seq<char>, Json)>::empty());
            } else {
                let body = spec_ser_field(fields[0]) + spec_ser_fields_rest(fields.drop_first());
                assert(t == seq!['{'] + body + seq!['}']);
                assert(spec_ser_field(fields[0])[0] == '"');
                assert(s[i + 1] == '"');
                assert(spec_skip_ws(s, i + 1) == i + 1);
                assert(s[i + 1] != '}');
                assert(s.subrange(i + 1, i + 1 + body.len() as int) =~= body);
                assert(s[i + 1 + body.len()] == '}');
                lemma_parse_members_ser(s, i + 1, fields);
            }
        },
    }
}

/// A position whose character is not a letter opening `null`, `true` or
/// `false` matches none of those literals.
proof fn lemma_no_literal_match(s: Seq<char>, i: int, c: char)
    requires
        0 <= i < s.len(),
        s[i] == c,
        c != 'n' && c != 't' && c != 'f',
    ensures
        !crate::parse::spec_match_at(s, i, "null"@),
        !crate::parse::spec_match_at(s, i, "true"@),
        !crate::parse::spec_match_at(s, i, "false"@),
{
    reveal_strlit("null");
    reveal_strlit("true");
    reveal_strlit("false");
    if crate::parse::spec_match_at(s, i, "null"@) {
        assert(s.subrange(i, i + 4)[0] == 'n');
    }
    if crate::parse::spec_match_at(s, i, "true"@) {
        assert(s.subrange(i, i + 4)[0] == 't');
    }
    if crate::parse::spec_match_at(s, i, "false"@) {
        assert(s.subrange(i, i + 5)[0] == 'f');
    }
}

/// Parsing reads back the serialised items of a non-empty array, closing
/// bracket included.
pub proof fn lemma_parse_items_ser(s: Seq<char>, p: int, items: Seq<Json>)
    requires
        items.len() >= 1,
        forall|k: int| 0 <= k < items.len() ==> wf_json(#[trigger] items[k]),
        0 <= p,
        p + spec_ser(items[0]).len() + spec_ser_items_rest(items.drop_first()).len() + 1 <= s.len(),
        s.subrange(
            p,
            p + spec_ser(items[0]).len() + spec_ser_items_rest(items.drop_first()).len() as int,
        ) == spec_ser(items[0]) + spec_ser_items_rest(items.drop_first()),
        s[p + spec_ser(items[0]).len() + spec_ser_items_rest(items.drop_first()).len()] == ']',
    ensures
        crate::parse::spec_parse_items(s, p) == Some(
            (
                items,
                p + spec_ser(items[0]).len() + spec_ser_items_rest(items.drop_first()).len() + 1,
            ),
        ),
    decreases items, 1int,
{
    let first = spec_ser(items[0]);
    let rest = spec_ser_items_rest(items.drop_first());
    let b = p + first.len() + rest.len();
    assert forall|k: int| p <= k < b implies s[k] == (first + rest)[k - p] by {
        assert(s.subrange(p, b)[k - p] == (first + rest)[k - p]);
    }
    let n = p + first.len();
    assert(s.subrange(p, n as int) =~= first);
    if items.len() == 1 {
        assert(rest.len() == 0);
        assert(s[n] == ']');
        lemma_parse_value_ser(s, p, items[0]);
        assert(spec_skip_ws(s, n) == n);
        assert(seq![items[0]] =~= items);
    } else {
        assert(rest == seq![','] + spec_ser(items[1 as int]) + spec_ser_items_rest(
            items.drop_first().drop_first(),
        )) by {
            assert(items.drop_first()[0] == items[1 as int]);
            assert(rest == seq![','] + spec_ser(items.drop_first()[0]) + spec_ser_items_rest(
                items.drop_first().drop_first(),
            ));
        }
        assert(s[n] == ',');
        lemma_parse_value_ser(s, p, items[0]);
        assert(spec_skip_ws(s, n) == n);
        let p2 = n + 1;
        lemma_ser_first(items[1 as int]);
        assert(s[p2] == spec_ser(items[1 as int])[0]);
        assert(spec_skip_ws(s, p2) == p2);
        let tail = items.drop_first();
        assert(tail[0] == items[1 as int]);
        assert(tail.drop_first() =~= items.drop_first().drop_first());
        assert(s.subrange(
            p2,
            p2 + spec_ser(tail[0]).len() + spec_ser_items_rest(tail.drop_first()).len() as int,
        ) =~= spec_ser(tail[0]) + spec_ser_items_rest(tail.drop_first()));
        assert(s[p2 + spec_ser(tail[0]).len() + spec_ser_items_rest(tail.drop_first()).len()]
            == ']');
        lemma_parse_items_ser(s, p2, tail);
        assert(seq![items[0]] + tail =~= items);
    }
}

/// Parsing reads back the serialised members of a non-empty object, closing
/// brace included.
pub proof fn lemma_parse_members_ser(s: Seq<char>, p: int, fields: Seq<(Seq<char>, Json)>)
    requires
        fields.len() >= 1,
        forall|k: int| 0 <= k < fields.len() ==> wf_json(#[trigger] fields[k].1),
        0 <= p,
        p + spec_ser_field(fields[0]).len() + spec_ser_fields_rest(fields.drop_first()).len() + 1
            <= s.len(),
        s.subrange(
            p,
            p + spec_ser_field(fields[0]).len() + spec_ser_fields_rest(
                fields.drop_first(),
            ).len() as int,
        ) == spec_ser_field(fields[0]) + spec_ser_fields_rest(fields.drop_first()),
        s[p + spec_ser_field(fields[0]).len() + spec_ser_fields_rest(fields.drop_first()).len()]
            == '}',
    ensures
        crate::parse::spec_parse_members(s, p) == Some(
            (
                fields,
                p + spec_ser_field(fields[0]).len() + spec_ser_fields_rest(
                    fields.drop_first(),
                ).len() + 1,
            ),
        ),
    decreases fields, 2int,
{
    let key = fields[0].0;
    let val = fields[0].1;
    let first = spec_ser_field(fields[0]);
    let rest = spec_ser_fields_rest(fields.drop_first());
    let b = p + first.len() + rest.len();
    assert(first == spec_ser_string(key) + seq![':'] + spec_ser(val));
    assert forall|k: int| p <= k < b implies s[k] == (first + rest)[k - p] by {
        assert(s.subrange(p, b)[k - p] == (first + rest)[k - p]);
    }
    assert(s[p] == '"');
    // the key string
    assert(s.subrange(p + 1, p + 1 + spec_escape_str(key).len() as int) =~= spec_escape_str(key));
    assert(s[p + 1 + spec_escape_str(key).len()] == '"');
    lemma_parse_string_body_ser(s, p + 1, key);
    let n = p + spec_ser_string(key).len();
    // the colon, then the value
    assert(s[n] == ':');
    assert(spec_skip_ws(s, n) == n);
    let v0 = n + 1;
    lemma_ser_first(val);
    assert(s[v0] == spec_ser(val)[0]);
    assert(spec_skip_ws(s, v0) == v0);
    let pv = v0 + spec_ser(val).len();
    assert(s.subrange(v0, pv as int) =~= spec_ser(val));
    assert(pv == p + first.len());
    lemma_parse_value_ser(s, v0, val);
    assert(spec_skip_ws(s, pv) == pv);
    if fields.len() == 1 {
        assert(rest.len() == 0);
        assert(s[pv] == '}');
        assert(seq![(key, val)] =~= fields);
    } else {
        assert(rest == seq![','] + spec_ser_field(fields[1 as int]) + spec_ser_fields_rest(
            fields.drop_first().drop_first(),
        )) by {
            assert(fields.drop_first()[0] == fields[1 as int]);
            assert(rest == seq![','] + spec_ser_field(fields.drop_first()[0])
                + spec_ser_fields_rest(fields.drop_first().drop_first()));
        }
        assert(s[pv] == ',');
        let p2 = pv + 1;
        assert(spec_ser_field(fields[1 as int])[0] == '"');
        assert(s[p2] == '"');
        assert(spec_skip_ws(s, p2) == p2);
        let tail = fields.drop_first();
        assert(tail[0] == fields[1 as int]);
        assert(tail.drop_first() =~= fields.drop_first().drop_first());
        assert(s.subrange(
            p2,
            p2 + spec_ser_field(tail[0]).len() + spec_ser_fields_rest(
                tail.drop_first(),
            ).len() as int,
        ) =~= spec_ser_field(tail[0]) + spec_ser_fields_rest(tail.drop_first()));
        assert(s[p2 + spec_ser_field(tail[0]).len() + spec_ser_fields_rest(
            tail.drop_first(),
        ).len()] == '}');
        lemma_parse_members_ser(s, p2, tail);
        assert(seq![(key, val)] + tail =~= fields);
    }
}

/// The codec's inversion law: parsing the serialised form of a well-formed
/// document yields exactly that document. Every document the executable
/// type can hold is well-formed, so decoding inverts encoding for all of
/// them.
pub proof fn lemma_parse_of_serialized(j: Json)
    requires
        wf_json(j),
    ensures
        spec_parse_json(spec_ser(j)) == Some(j),
{
    let s = spec_ser(j);
    lemma_ser_first(j);
    assert(spec_skip_ws(s, 0) == 0);
    assert(s.subrange(0, s.len() as int) =~= s);
    lemma_parse_value_ser(s, 0, j);
    assert(spec_skip_ws(s, s.len() as int) == s.len());
}

/// The view of every executable document is well-formed.
pub proof fn lemma_view_wf(v: &JsonValue)
    ensures
        wf_json(v@),
    decreases v,
{
    match v {
        JsonValue::Null => {},
        JsonValue::Bool(_) => {},
        JsonValue::Int(_) => {},
        JsonValue::Str(_) => {},
        JsonValue::Arr(items) => {
            crate::json::lemma_json_seq_view(items@);
            assert forall|k: int| 0 <= k < json_seq_view(items@).len() implies wf_json(
                #[trigger] json_seq_view(items@)[k],
            ) by {
                lemma_view_wf(&items[k]);
            }
        },
        JsonValue::Obj(fields) => {
            crate::json::lemma_json_fields_view(fields@);
            assert forall|k: int| 0 <= k < json_fields_view(fields@).len() implies wf_json(
                #[trigger] json_fields_view(fields@)[k].1,
            ) by {
                assert(json_fields_view(fields@)[k] == (fields@[k].0@, fields@[k].1@));
                lemma_view_wf(&fields[k].1);
            }
        },
    }
}

/// The inversion law at the executable document type: every value it can
/// hold survives encoding and decoding unchanged.
pub proof fn lemma_codec_inverts(v: &JsonValue)
    ensures
        spec_parse_json(spec_ser(v@)) == Some(v@),
{
    lemma_view_wf(v);
    lemma_parse_of_serialized(v@);
}

} // verus!
