//! The JSON parser: a recursive-descent reader over characters whose result
//! is pinned, case by case, to a mathematical parsing function. It accepts
//! the integer-only JSON subset described in `json`: fractional or
//! exponent-form numbers, and unicode escapes beyond the ASCII range, are
//! rejected (the caller keeps such frames raw).

use vstd::prelude::*;

use crate::json::{json_fields_view, json_seq_view, Json, JsonValue};
use crate::json::{lemma_json_fields_view, lemma_json_seq_view};

verus! {

pub open spec fn spec_is_ws(c: char) -> bool {
    c == ' ' || c == '\n' || c == '\r' || c == '\t'
}

pub open spec fn spec_is_digit(c: char) -> bool {
    48 <= (c as u32) <= 57
}

/// The value of one hexadecimal digit, or 16 when the character is not one.
pub open spec fn spec_hex_val(c: char) -> int {
    if 48 <= (c as u32) <= 57 {
        (c as u32) - 48
    } else if 97 <= (c as u32) <= 102 {
        (c as u32) - 87
    } else if 65 <= (c as u32) <= 70 {
        (c as u32) - 55
    } else {
        16
    }
}

/// The first position at or after `i` holding a non-blank character.
pub open spec fn spec_skip_ws(s: Seq<char>, i: int) -> int
    decreases s.len() - i,
    when 0 <= i <= s.len()
{
    if i < s.len() && spec_is_ws(s[i]) {
        spec_skip_ws(s, i + 1)
    } else {
        i
    }
}

pub proof fn lemma_skip_ws_bounds(s: Seq<char>, i: int)
    requires
        0 <= i <= s.len(),
    ensures
        i <= spec_skip_ws(s, i) <= s.len(),
    decreases s.len() - i,
{
    if i < s.len() && spec_is_ws(s[i]) {
        lemma_skip_ws_bounds(s, i + 1);
    }
}

/// The word `w` occurs at position `i` of `s`.
pub open spec fn spec_match_at(s: Seq<char>, i: int, w: Seq<char>) -> bool {
    0 <= i && i + w.len() <= s.len() && s.subrange(i, i + w.len() as int) == w
}

/// The first position at or after `i` holding a non-digit.
pub open spec fn spec_digit_run_end(s: Seq<char>, i: int) -> int
    decreases s.len() - i,
    when 0 <= i <= s.len()
{
    if i < s.len() && spec_is_digit(s[i]) {
        spec_digit_run_end(s, i + 1)
    } else {
        i
    }
}

/// The numeric value of the digit run `s[i..j)`.
pub open spec fn spec_digits_value(s: Seq<char>, i: int, j: int) -> nat
    decreases j - i,
    when i <= j
{
    if j <= i {
        0
    } else {
        spec_digits_value(s, i, j - 1) * 10 + (((s[j - 1] as u32) - 48) as nat)
    }
}

pub proof fn lemma_digits_value_mono(s: Seq<char>, i: int, j: int, k: int)
    requires
        i <= j <= k,
    ensures
        spec_digits_value(s, i, k) >= spec_digits_value(s, i, j),
    decreases k - j,
{
    if j < k {
        lemma_digits_value_mono(s, i, j, k - 1);
        assert(spec_digits_value(s, i, k) == spec_digits_value(s, i, k - 1) * 10 + (((s[k
            - 1] as u32) - 48) as nat));
        assert(spec_digits_value(s, i, k - 1) * 10 >= spec_digits_value(s, i, k - 1)) by (nonlinear_arith);
    }
}

/// A parsed number: optional minus sign, a digit run without a useless
/// leading zero, no fraction or exponent, value within the 64-bit range.
pub open spec fn spec_parse_number(s: Seq<char>, i: int) -> Option<(Json, int)> {
    let neg = i < s.len() && s[i] == '-';
    let d0 = if neg {
        i + 1
    } else {
        i
    };
    if !(0 <= d0 <= s.len()) {
        None
    } else {
        let j = spec_digit_run_end(s, d0);
        if j == d0 {
            None
        } else if s[d0] == '0' && j > d0 + 1 {
            None
        } else if j < s.len() && (s[j] == '.' || s[j] == 'e' || s[j] == 'E') {
            None
        } else {
            let m = spec_digits_value(s, d0, j);
            if neg && m <= 0x8000000000000000 {
                Some((Json::Int(-(m as int)), j))
            } else if !neg && m < 0x8000000000000000 {
                Some((Json::Int(m as int), j))
            } else {
                None
            }
        }
    }
}

/// One escape sequence, starting after the backslash. Unicode escapes are
/// accepted for ASCII code points only.
pub open spec fn spec_parse_escape(s: Seq<char>, i: int) -> Option<(char, int)> {
    if !(0 <= i < s.len()) {
        None
    } else if s[i] == '"' {
        Some(('"', i + 1))
    } else if s[i] == '\\' {
        Some(('\\', i + 1))
    } else if s[i] == '/' {
        Some(('/', i + 1))
    } else if s[i] == 'b' {
        Some(('\u{08}', i + 1))
    } else if s[i] == 'f' {
        Some(('\u{0c}', i + 1))
    } else if s[i] == 'n' {
        Some(('\n', i + 1))
    } else if s[i] == 'r' {
        Some(('\r', i + 1))
    } else if s[i] == 't' {
        Some(('\t', i + 1))
    } else if s[i] == 'u' && i + 5 <= s.len() {
        let v = spec_hex_val(s[i + 1]) * 4096 + spec_hex_val(s[i + 2]) * 256 + spec_hex_val(
            s[i + 3],
        ) * 16 + spec_hex_val(s[i + 4]);
        if spec_hex_val(s[i + 1]) < 16 && spec_hex_val(s[i + 2]) < 16 && spec_hex_val(s[i + 3])
            < 16 && spec_hex_val(s[i + 4]) < 16 && v < 128 {
            Some(((v as u8) as char, i + 5))
        } else {
            None
        }
    } else {
        None
    }
}

/// The body of a string literal, starting after the opening quote; yields
/// the decoded content and the position after the closing quote.
pub open spec fn spec_parse_string_body(s: Seq<char>, i: int) -> Option<(Seq<char>, int)>
    decreases s.len() - i,
    when 0 <= i <= s.len()
{
    if i >= s.len() {
        None
    } else if s[i] == '"' {
        Some((Seq::empty(), i + 1))
    } else if s[i] == '\\' {
        match spec_parse_escape(s, i + 1) {
            None => None,
            Some((c, n)) => if i + 1 < n <= s.len() {
                match spec_parse_string_body(s, n) {
                    None => None,
                    Some((t, m)) => Some((seq![c] + t, m)),
                }
            } else {
                None
            },
        }
    } else if (s[i] as u32) < 32 {
        None
    } else {
        match spec_parse_string_body(s, i + 1) {
            None => None,
            Some((t, m)) => Some((seq![s[i]] + t, m)),
        }
    }
}

/// One JSON value starting exactly at `i`; yields the document and the
/// position after it.
pub open spec fn spec_parse_value(s: Seq<char>, i: int) -> Option<(Json, int)>
    decreases s.len() - i, 0int,
    when 0 <= i <= s.len()
{
    if i >= s.len() {
        None
    } else if spec_match_at(s, i, "null"@) {
        Some((Json::Null, i + 4))
    } else if spec_match_at(s, i, "true"@) {
        Some((Json::Bool(true), i + 4))
    } else if spec_match_at(s, i, "false"@) {
        Some((Json::Bool(false), i + 5))
    } else if s[i] == '"' {
        match spec_parse_string_body(s, i + 1) {
            None => None,
            Some((t, n)) => Some((Json::Str(t), n)),
        }
    } else if s[i] == '[' {
        let j = spec_skip_ws(s, i + 1);
        if !(i + 1 <= j <= s.len()) {
            None
        } else if j < s.len() && s[j] == ']' {
            Some((Json::Arr(Seq::empty()), j + 1))
        } else {
            match spec_parse_items(s, j) {
                None => None,
                Some((items, n)) => Some((Json::Arr(items), n)),
            }
        }
    } else if s[i] == '{' {
        let j = spec_skip_ws(s, i + 1);
        if !(i + 1 <= j <= s.len()) {
            None
        } else if j < s.len() && s[j] == '}' {
            Some((Json::Obj(Seq::empty()), j + 1))
        } else {
            match spec_parse_members(s, j) {
                None => None,
                Some((fields, n)) => Some((Json::Obj(fields), n)),
            }
        }
    } else {
        spec_parse_number(s, i)
    }
}

/// The items of a non-empty array, starting at the first value; consumes
/// the closing bracket.
pub open spec fn spec_parse_items(s: Seq<char>, i: int) -> Option<(Seq<Json>, int)>
    decreases s.len() - i, 1int,
    when 0 <= i <= s.len()
{
    match spec_parse_value(s, i) {
        None => None,
        Some((v, n)) => if !(i < n <= s.len()) {
            None
        } else {
            let m = spec_skip_ws(s, n);
            if !(n <= m <= s.len()) {
                None
            } else if m < s.len() && s[m] == ',' {
                let k = spec_skip_ws(s, m + 1);
                if !(m + 1 <= k <= s.len()) {
                    None
                } else {
                    match spec_parse_items(s, k) {
                        None => None,
                        Some((rest, q)) => Some((seq![v] + rest, q)),
                    }
                }
            } else if m < s.len() && s[m] == ']' {
                Some((seq![v], m + 1))
            } else {
                None
            }
        },
    }
}

/// The members of a non-empty object, starting at the first key; consumes
/// the closing brace.
pub open spec fn spec_parse_members(s: Seq<char>, i: int) -> Option<(Seq<(Seq<char>, Json)>, int)>
    decreases s.len() - i, 2int,
    when 0 <= i <= s.len()
{
    if !(i < s.len() && s[i] == '"') {
        None
    } else {
        match spec_parse_string_body(s, i + 1) {
            None => None,
            Some((key, n)) => if !(i < n <= s.len()) {
                None
            } else {
                let m = spec_skip_ws(s, n);
                if !(n <= m <= s.len() && m < s.len() && s[m] == ':') {
                    None
                } else {
                    let k = spec_skip_ws(s, m + 1);
                    if !(m + 1 <= k <= s.len()) {
                        None
                    } else {
                        match spec_parse_value(s, k) {
                            None => None,
                            Some((v, p)) => if !(k < p <= s.len()) {
                                None
                            } else {
                                let q = spec_skip_ws(s, p);
                                if !(p <= q <= s.len()) {
                                    None
                                } else if q < s.len() && s[q] == ',' {
                                    let w = spec_skip_ws(s, q + 1);
                                    if !(q + 1 <= w <= s.len()) {
                                        None
                                    } else {
                                        match spec_parse_members(s, w) {
                                            None => None,
                                            Some((rest, z)) => Some((seq![(key, v)] + rest, z)),
                                        }
                                    }
                                } else if q < s.len() && s[q] == '}' {
                                    Some((seq![(key, v)], q + 1))
                                } else {
                                    None
                                }
                            },
                        }
                    }
                }
            },
        }
    }
}

/// A whole document: one value, surrounded only by blanks.
pub open spec fn spec_parse_json(s: Seq<char>) -> Option<Json> {
    let i = spec_skip_ws(s, 0);
    if !(0 <= i <= s.len()) {
        None
    } else {
        match spec_parse_value(s, i) {
            None => None,
            Some((v, n)) => if 0 <= n <= s.len() && spec_skip_ws(s, n) == s.len() {
                Some(v)
            } else {
                None
            },
        }
    }
}

// ─── The executable parser ───

fn is_ws(c: char) -> (b: bool)
    ensures
        b == spec_is_ws(c),
{
    c == ' ' || c == '\n' || c == '\r' || c == '\t'
}

fn is_digit(c: char) -> (b: bool)
    ensures
        b == spec_is_digit(c),
{
    let u = c as u32;
    48 <= u && u <= 57
}

fn hex_val(c: char) -> (v: u32)
    ensures
        v == spec_hex_val(c),
{
    let u = c as u32;
    if 48 <= u && u <= 57 {
        u - 48
    } else if 97 <= u && u <= 102 {
        u - 87
    } else if 65 <= u && u <= 70 {
        u - 55
    } else {
        16
    }
}

fn skip_ws(s: &Vec<char>, i: usize) -> (r: usize)
    requires
        i <= s@.len(),
    ensures
        r == spec_skip_ws(s@, i as int),
        i <= r <= s@.len(),
{
    let mut j = i;
    loop
        invariant
            i <= j <= s@.len(),
            spec_skip_ws(s@, i as int) == spec_skip_ws(s@, j as int),
        ensures
            j == spec_skip_ws(s@, i as int),
        decreases s@.len() - j,
    {
        if j >= s.len() {
            break;
        }
        if !is_ws(s[j]) {
            break;
        }
        j += 1;
    }
    j
}

fn digit_run_end(s: &Vec<char>, i: usize) -> (r: usize)
    requires
        i <= s@.len(),
    ensures
        r == spec_digit_run_end(s@, i as int),
        i <= r <= s@.len(),
        forall|q: int| i <= q < r ==> spec_is_digit(#[trigger] s@[q]),
{
    let mut j = i;
    loop
        invariant
            i <= j <= s@.len(),
            spec_digit_run_end(s@, i as int) == spec_digit_run_end(s@, j as int),
            forall|q: int| i <= q < j ==> spec_is_digit(#[trigger] s@[q]),
        ensures
            j == spec_digit_run_end(s@, i as int),
            forall|q: int| i <= q < j ==> spec_is_digit(#[trigger] s@[q]),
        decreases s@.len() - j,
    {
        if j >= s.len() {
            break;
        }
        if !is_digit(s[j]) {
            break;
        }
        j += 1;
    }
    j
}

/// The word occurs at position `i`: executable form of `spec_match_at`.
fn match_word(s: &Vec<char>, i: usize, w: &str) -> (b: bool)
    requires
        i <= s@.len(),
    ensures
        b == spec_match_at(s@, i as int, w@),
{
    let wv = crate::text::chars_vec(w);
    if wv.len() > s.len() - i {
        return false;
    }
    let m = wv.len();
    let slen = s.len();
    for k in 0..m
        invariant
            slen == s@.len(),
            i + m <= slen,
            m == wv@.len(),
            wv@ == w@,
            forall|q: int| 0 <= q < k ==> s@[i + q] == w@[q],
    {
        if s[i + k] != wv[k] {
            assert(s@.subrange(i as int, i + w@.len() as int)[k as int] != w@[k as int]);
            return false;
        }
    }
    assert(s@.subrange(i as int, i + w@.len() as int) =~= w@);
    true
}

fn parse_escape(s: &Vec<char>, i: usize) -> (r: Option<(char, usize)>)
    requires
        i <= s@.len(),
    ensures
        match r {
            Some((c, n)) => spec_parse_escape(s@, i as int) == Some((c, n as int)) && i < n
                <= s@.len(),
            None => spec_parse_escape(s@, i as int) is None,
        },
{
    if i >= s.len() {
        return None;
    }
    let c = s[i];
    if c == '"' || c == '\\' || c == '/' {
        Some((c, i + 1))
    } else if c == 'b' {
        Some(('\u{08}', i + 1))
    } else if c == 'f' {
        Some(('\u{0c}', i + 1))
    } else if c == 'n' {
        Some(('\n', i + 1))
    } else if c == 'r' {
        Some(('\r', i + 1))
    } else if c == 't' {
        Some(('\t', i + 1))
    } else if c == 'u' && s.len() - i >= 5 {
        let h1 = hex_val(s[i + 1]);
        let h2 = hex_val(s[i + 2]);
        let h3 = hex_val(s[i + 3]);
        let h4 = hex_val(s[i + 4]);
        if h1 < 16 && h2 < 16 && h3 < 16 && h4 < 16 {
            let v = h1 * 4096 + h2 * 256 + h3 * 16 + h4;
            if v < 128 {
                Some(((v as u8) as char, i + 5))
            } else {
                None
            }
        } else {
            None
        }
    } else {
        None
    }
}

/// Prefixing the decoded content of a string-body result.
pub open spec fn opt_prepend(p: Seq<char>, o: Option<(Seq<char>, int)>) -> Option<
    (Seq<char>, int),
> {
    match o {
        None => None,
        Some((t, n)) => Some((p + t, n)),
    }
}

fn parse_string_body(s: &Vec<char>, i: usize) -> (r: Option<(String, usize)>)
    requires
        i <= s@.len(),
    ensures
        match r {
            Some((t, n)) => spec_parse_string_body(s@, i as int) == Some((t@, n as int)) && i < n
                <= s@.len(),
            None => spec_parse_string_body(s@, i as int) is None,
        },
{
    let mut acc = String::new();
    let mut j = i;
    loop
        invariant
            i <= j <= s@.len(),
            spec_parse_string_body(s@, i as int) == opt_prepend(
                acc@,
                spec_parse_string_body(s@, j as int),
            ),
        decreases s@.len() - j,
    {
        if j >= s.len() {
            return None;
        }
        let c = s[j];
        if c == '"' {
            proof {
                assert(acc@ + Seq::<char>::empty() =~= acc@);
            }
            return Some((acc, j + 1));
        } else if c == '\\' {
            match parse_escape(s, j + 1) {
                None => {
                    return None;
                },
                Some((e, n)) => {
                    proof {
                        assert(spec_parse_string_body(s@, j as int) == opt_prepend(
                            seq![e],
                            spec_parse_string_body(s@, n as int),
                        ));
                        assert(forall|t: Seq<char>| acc@ + (seq![e] + t) =~= acc@.push(e) + t);
                    }
                    acc.push(e);
                    j = n;
                },
            }
        } else if (c as u32) < 32 {
            return None;
        } else {
            proof {
                assert(spec_parse_string_body(s@, j as int) == opt_prepend(
                    seq![c],
                    spec_parse_string_body(s@, j + 1),
                ));
                assert(forall|t: Seq<char>| acc@ + (seq![c] + t) =~= acc@.push(c) + t);
            }
            acc.push(c);
            j += 1;
        }
    }
}

#[verifier::loop_isolation(false)]
fn parse_number(s: &Vec<char>, i: usize) -> (r: Option<(JsonValue, usize)>)
    requires
        i < s@.len(),
    ensures
        match r {
            Some((v, n)) => spec_parse_number(s@, i as int) == Some((v@, n as int)) && i < n
                <= s@.len(),
            None => spec_parse_number(s@, i as int) is None,
        },
{
    let slen = s.len();
    let neg = s[i] == '-';
    let d0 = if neg {
        i + 1
    } else {
        i
    };
    let j = digit_run_end(s, d0);
    if j == d0 {
        return None;
    }
    if s[d0] == '0' && j > d0 + 1 {
        return None;
    }
    if j < s.len() && (s[j] == '.' || s[j] == 'e' || s[j] == 'E') {
        return None;
    }
    let mut acc: u128 = 0;
    let mut k = d0;
    while k < j
        invariant
            d0 <= k <= j <= s@.len(),
            acc == spec_digits_value(s@, d0 as int, k as int),
            acc <= 0x8000000000000000,
            forall|q: int| d0 <= q < j ==> spec_is_digit(#[trigger] s@[q]),
            j == spec_digit_run_end(s@, d0 as int),
        decreases j - k,
    {
        assert(spec_is_digit(s@[k as int]));
        let d = (s[k] as u32 - 48) as u128;
        proof {
            assert(d == ((s@[k as int] as u32) - 48) as nat);
            assert(spec_digits_value(s@, d0 as int, k + 1) == spec_digits_value(
                s@,
                d0 as int,
                k as int,
            ) * 10 + (((s@[k as int] as u32) - 48) as nat));
        }
        let tmp = acc * 10 + d;
        if tmp > 0x8000000000000000u128 {
            proof {
                lemma_digits_value_mono(s@, d0 as int, k + 1, j as int);
            }
            return None;
        }
        acc = tmp;
        k += 1;
    }
    let m = acc as u64;
    assert(m as nat == spec_digits_value(s@, d0 as int, j as int));
    if neg {
        let v: i64 = if m == 0x8000000000000000 {
            i64::MIN
        } else {
            -(m as i64)
        };
        assert(v as int == -(m as int));
        Some((JsonValue::Int(v), j))
    } else {
        if m < 0x8000000000000000 {
            Some((JsonValue::Int(m as i64), j))
        } else {
            None
        }
    }
}

fn parse_value(s: &Vec<char>, i: usize) -> (r: Option<(JsonValue, usize)>)
    requires
        i <= s@.len(),
    ensures
        match r {
            Some((v, n)) => spec_parse_value(s@, i as int) == Some((v@, n as int)) && i < n
                <= s@.len(),
            None => spec_parse_value(s@, i as int) is None,
        },
    decreases s@.len() - i, 0int,
{
    let slen = s.len();
    if i >= slen {
        return None;
    }
    if match_word(s, i, "null") {
        proof {
            reveal_strlit("null");
        }
        return Some((JsonValue::Null, i + 4));
    }
    if match_word(s, i, "true") {
        proof {
            reveal_strlit("true");
        }
        return Some((JsonValue::Bool(true), i + 4));
    }
    if match_word(s, i, "false") {
        proof {
            reveal_strlit("false");
        }
        return Some((JsonValue::Bool(false), i + 5));
    }
    let c = s[i];
    if c == '"' {
        match parse_string_body(s, i + 1) {
            None => None,
            Some((t, n)) => Some((JsonValue::Str(t), n)),
        }
    } else if c == '[' {
        let j = skip_ws(s, i + 1);
        if j < s.len() && s[j] == ']' {
            let items: Vec<JsonValue> = Vec::new();
            proof {
                lemma_json_seq_view(items@);
                assert(json_seq_view(items@) =~= Seq::<Json>::empty());
            }
            Some((JsonValue::Arr(items), j + 1))
        } else {
            match parse_items(s, j) {
                None => None,
                Some((items, n)) => Some((JsonValue::Arr(items), n)),
            }
        }
    } else if c == '{' {
        let j = skip_ws(s, i + 1);
        if j < s.len() && s[j] == '}' {
            let fields: Vec<(String, JsonValue)> = Vec::new();
            proof {
                lemma_json_fields_view(fields@);
                assert(json_fields_view(fields@) =~= Seq::<(Seq<char>, Json)>::empty());
            }
            Some((JsonValue::Obj(fields), j + 1))
        } else {
            match parse_members(s, j) {
                None => None,
                Some((fields, n)) => Some((JsonValue::Obj(fields), n)),
            }
        }
    } else {
        parse_number(s, i)
    }
}

fn parse_items(s: &Vec<char>, i: usize) -> (r: Option<(Vec<JsonValue>, usize)>)
    requires
        i <= s@.len(),
    ensures
        match r {
            Some((items, n)) => spec_parse_items(s@, i as int) == Some(
                (json_seq_view(items@), n as int),
            ) && i < n <= s@.len(),
            None => spec_parse_items(s@, i as int) is None,
        },
    decreases s@.len() - i, 1int,
{
    match parse_value(s, i) {
        None => None,
        Some((v, n)) => {
            let m = skip_ws(s, n);
            if m < s.len() && s[m] == ',' {
                let k = skip_ws(s, m + 1);
                match parse_items(s, k) {
                    None => None,
                    Some((rest, q)) => {
                        let ghost vv = v@;
                        let ghost restv = rest@;
                        let mut items = rest;
                        items.insert(0, v);
                        proof {
                            assert(items@.drop_first() =~= restv);
                            lemma_json_seq_view(items@);
                            lemma_json_seq_view(restv);
                            assert(json_seq_view(items@) =~= seq![vv] + json_seq_view(restv));
                        }
                        Some((items, q))
                    },
                }
            } else if m < s.len() && s[m] == ']' {
                let ghost vv = v@;
                let mut items: Vec<JsonValue> = Vec::new();
                items.push(v);
                proof {
                    lemma_json_seq_view(items@);
                    assert(json_seq_view(items@) =~= seq![vv]);
                }
                Some((items, m + 1))
            } else {
                None
            }
        },
    }
}

fn parse_members(s: &Vec<char>, i: usize) -> (r: Option<(Vec<(String, JsonValue)>, usize)>)
    requires
        i <= s@.len(),
    ensures
        match r {
            Some((fields, n)) => spec_parse_members(s@, i as int) == Some(
                (json_fields_view(fields@), n as int),
            ) && i < n <= s@.len(),
            None => spec_parse_members(s@, i as int) is None,
        },
    decreases s@.len() - i, 2int,
{
    if !(i < s.len() && s[i] == '"') {
        return None;
    }
    match parse_string_body(s, i + 1) {
        None => None,
        Some((key, n)) => {
            let m = skip_ws(s, n);
            if !(m < s.len() && s[m] == ':') {
                return None;
            }
            let k = skip_ws(s, m + 1);
            match parse_value(s, k) {
                None => None,
                Some((v, p)) => {
                    let q = skip_ws(s, p);
                    if q < s.len() && s[q] == ',' {
                        let w = skip_ws(s, q + 1);
                        match parse_members(s, w) {
                            None => None,
                            Some((rest, z)) => {
                                let ghost keyv = key@;
                                let ghost vv = v@;
                                let ghost restv = rest@;
                                let mut fields = rest;
                                fields.insert(0, (key, v));
                                proof {
                                    assert(fields@.drop_first() =~= restv);
                                    assert(fields@[0].0@ == keyv && fields@[0].1@ == vv);
                                    lemma_json_fields_view(fields@);
                                    lemma_json_fields_view(restv);
                                    assert(json_fields_view(fields@) =~= seq![(keyv, vv)]
                                        + json_fields_view(restv));
                                }
                                Some((fields, z))
                            },
                        }
                    } else if q < s.len() && s[q] == '}' {
                        let ghost keyv = key@;
                        let ghost vv = v@;
                        let mut fields: Vec<(String, JsonValue)> = Vec::new();
                        fields.push((key, v));
                        proof {
                            lemma_json_fields_view(fields@);
                            assert(json_fields_view(fields@) =~= seq![(keyv, vv)]);
                        }
                        Some((fields, q + 1))
                    } else {
                        None
                    }
                },
            }
        },
    }
}

/// Parse a whole document; the result is pinned to the mathematical parser.
pub fn parse_json(s: &str) -> (r: Option<JsonValue>)
    ensures
        match r {
            Some(v) => spec_parse_json(s@) == Some(v@),
            None => spec_parse_json(s@) is None,
        },
{
    let cv = crate::text::chars_vec(s);
    let i = skip_ws(&cv, 0);
    match parse_value(&cv, i) {
        None => None,
        Some((v, n)) => {
            let m = skip_ws(&cv, n);
            if m == cv.len() {
                Some(v)
            } else {
                None
            }
        },
    }
}

} // verus!
