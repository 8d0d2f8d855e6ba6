//! The JSON document model and codec used by both the REST envelope and the
//! streaming frames.
//!
//! Numbers are restricted to 64-bit integers: every numeric quantity of the
//! exchange protocol is either an integer (timestamps, counters, request
//! identifiers) or already carried as a string on the wire. A document with
//! a fractional or exponent-form number is rejected by the parser and can be
//! kept raw by the caller.

use vstd::prelude::*;

verus! {

/// A decoded JSON document. Object fields keep their wire order, so no
/// information is lost and encoding is the exact inverse of decoding.
pub enum JsonValue {
    Null,
    Bool(bool),
    Int(i64),
    Str(String),
    Arr(Vec<JsonValue>),
    Obj(Vec<(String, JsonValue)>),
}

/// The mathematical shape of a JSON document.
#[verifier::ext_equal]
pub enum Json {
    Null,
    Bool(bool),
    Int(int),
    Str(Seq<char>),
    Arr(Seq<Json>),
    Obj(Seq<(Seq<char>, Json)>),
}

impl View for JsonValue {
    type V = Json;

    open spec fn view(&self) -> Json
        decreases self,
    {
        match self {
            JsonValue::Null => Json::Null,
            JsonValue::Bool(b) => Json::Bool(*b),
            JsonValue::Int(n) => Json::Int(*n as int),
            JsonValue::Str(s) => Json::Str(s@),
            JsonValue::Arr(items) => Json::Arr(json_seq_view(items@)),
            JsonValue::Obj(fields) => Json::Obj(json_fields_view(fields@)),
        }
    }
}

pub open spec fn json_seq_view(s: Seq<JsonValue>) -> Seq<Json>
    decreases s,
{
    if s.len() == 0 {
        Seq::empty()
    } else {
        seq![s[0]@] + json_seq_view(s.drop_first())
    }
}

pub open spec fn json_fields_view(s: Seq<(String, JsonValue)>) -> Seq<(Seq<char>, Json)>
    decreases s,
{
    if s.len() == 0 {
        Seq::empty()
    } else {
        seq![(s[0].0@, s[0].1@)] + json_fields_view(s.drop_first())
    }
}

/// The view of a sequence of documents is the sequence of views.
pub proof fn lemma_json_seq_view(s: Seq<JsonValue>)
    ensures
        json_seq_view(s).len() == s.len(),
        forall|i: int| 0 <= i < s.len() ==> json_seq_view(s)[i] == #[trigger] s[i]@,
    decreases s.len(),
{
    if s.len() > 0 {
        lemma_json_seq_view(s.drop_first());
        assert(json_seq_view(s) == seq![s[0]@] + json_seq_view(s.drop_first()));
        assert forall|i: int| 0 <= i < s.len() implies json_seq_view(s)[i] == #[trigger] s[i]@ by {
            if i > 0 {
                assert(s.drop_first()[i - 1] == s[i]);
            }
        }
    }
}

/// The view of a field list is the field-wise view.
pub proof fn lemma_json_fields_view(s: Seq<(String, JsonValue)>)
    ensures
        json_fields_view(s).len() == s.len(),
        forall|i: int|
            0 <= i < s.len() ==> json_fields_view(s)[i] == (#[trigger] s[i].0@, s[i].1@),
    decreases s.len(),
{
    if s.len() > 0 {
        lemma_json_fields_view(s.drop_first());
        assert(json_fields_view(s) == seq![(s[0].0@, s[0].1@)] + json_fields_view(s.drop_first()));
        assert forall|i: int|
            0 <= i < s.len() implies json_fields_view(s)[i] == (#[trigger] s[i].0@, s[i].1@) by {
            if i > 0 {
                assert(s.drop_first()[i - 1] == s[i]);
            }
        }
    }
}

/// The value under the first field named `key`, if any.
pub open spec fn spec_obj_get(fields: Seq<(Seq<char>, Json)>, key: Seq<char>) -> Option<Json>
    decreases fields.len(),
{
    if fields.len() == 0 {
        None
    } else if fields[0].0 == key {
        Some(fields[0].1)
    } else {
        spec_obj_get(fields.drop_first(), key)
    }
}

/// Look a field up by name, first match.
pub fn obj_get<'a>(fields: &'a Vec<(String, JsonValue)>, key: &str) -> (r: Option<&'a JsonValue>)
    ensures
        match r {
            Some(v) => spec_obj_get(json_fields_view(fields@), key@) == Some(v@),
            None => spec_obj_get(json_fields_view(fields@), key@) is None,
        },
{
    let ghost fv = json_fields_view(fields@);
    proof {
        lemma_json_fields_view(fields@);
    }
    let keystr = key.to_owned();
    let n = fields.len();
    let mut i: usize = 0;
    proof {
        assert(fv.skip(0) =~= fv);
    }
    loop
        invariant
            i <= n,
            n == fields@.len(),
            fv == json_fields_view(fields@),
            fv.len() == n,
            keystr@ == key@,
            forall|q: int| 0 <= q < fv.len() ==> #[trigger] fv[q] == (fields@[q].0@, fields@[q].1@),
            spec_obj_get(fv, key@) == spec_obj_get(fv.skip(i as int), key@),
        ensures
            i <= n,
            spec_obj_get(fv, key@) == spec_obj_get(fv.skip(i as int), key@),
            i < n ==> fields@[i as int].0@ == key@,
            i == n ==> spec_obj_get(fv, key@) is None,
        decreases n - i,
    {
        if i >= n {
            assert(fv.skip(i as int).len() == 0);
            break;
        }
        if fields[i].0 == keystr {
            assert(fv.skip(i as int)[0] == fv[i as int]);
            break;
        }
        proof {
            assert(fv.skip(i as int)[0] == fv[i as int]);
            assert(fv.skip(i as int).drop_first() =~= fv.skip(i + 1));
        }
        i += 1;
    }
    if i < n {
        proof {
            assert(fv.skip(i as int)[0] == fv[i as int]);
        }
        Some(&fields[i].1)
    } else {
        None
    }
}

/// The field list contributed by an optional string value: one field when
/// present, nothing when absent.
pub open spec fn opt_str_seg(key: Seq<char>, v: Option<Seq<char>>) -> Seq<(Seq<char>, Json)> {
    match v {
        Some(s) => seq![(key, Json::Str(s))],
        None => Seq::empty(),
    }
}

/// The field list contributed by an optional integer value.
pub open spec fn opt_int_seg(key: Seq<char>, v: Option<int>) -> Seq<(Seq<char>, Json)> {
    match v {
        Some(n) => seq![(key, Json::Int(n))],
        None => Seq::empty(),
    }
}

/// The field list contributed by an optional boolean value.
pub open spec fn opt_bool_seg(key: Seq<char>, v: Option<bool>) -> Seq<(Seq<char>, Json)> {
    match v {
        Some(b) => seq![(key, Json::Bool(b))],
        None => Seq::empty(),
    }
}

/// Append one string field.
pub fn push_str_field(out: &mut Vec<(String, JsonValue)>, key: &str, val: &String)
    ensures
        json_fields_view(final(out)@) == json_fields_view(old(out)@) + seq![
            (key@, Json::Str(val@)),
        ],
{
    let ghost oldv = out@;
    out.push((key.to_owned(), JsonValue::Str(val.clone())));
    proof {
        assert(out@.drop_last() =~= oldv);
        lemma_fields_view_push(out@);
    }
}

/// Append one string field given as a literal slice.
pub fn push_lit_field(out: &mut Vec<(String, JsonValue)>, key: &str, val: &str)
    ensures
        json_fields_view(final(out)@) == json_fields_view(old(out)@) + seq![
            (key@, Json::Str(val@)),
        ],
{
    let ghost oldv = out@;
    out.push((key.to_owned(), JsonValue::Str(val.to_owned())));
    proof {
        assert(out@.drop_last() =~= oldv);
        lemma_fields_view_push(out@);
    }
}

/// Append one integer field.
pub fn push_int_field(out: &mut Vec<(String, JsonValue)>, key: &str, val: i64)
    ensures
        json_fields_view(final(out)@) == json_fields_view(old(out)@) + seq![
            (key@, Json::Int(val as int)),
        ],
{
    let ghost oldv = out@;
    out.push((key.to_owned(), JsonValue::Int(val)));
    proof {
        assert(out@.drop_last() =~= oldv);
        lemma_fields_view_push(out@);
    }
}

/// Append one boolean field.
pub fn push_bool_field(out: &mut Vec<(String, JsonValue)>, key: &str, val: bool)
    ensures
        json_fields_view(final(out)@) == json_fields_view(old(out)@) + seq![
            (key@, Json::Bool(val)),
        ],
{
    let ghost oldv = out@;
    out.push((key.to_owned(), JsonValue::Bool(val)));
    proof {
        assert(out@.drop_last() =~= oldv);
        lemma_fields_view_push(out@);
    }
}

/// Append one document-valued field.
pub fn push_json_field(out: &mut Vec<(String, JsonValue)>, key: &str, val: JsonValue)
    ensures
        json_fields_view(final(out)@) == json_fields_view(old(out)@) + seq![(key@, val@)],
{
    let ghost oldv = out@;
    let ghost vv = val@;
    out.push((key.to_owned(), val));
    proof {
        assert(out@.drop_last() =~= oldv);
        lemma_fields_view_push(out@);
    }
}

/// Append an optional string field: one field when present, nothing when
/// absent.
pub fn push_opt_str_field(out: &mut Vec<(String, JsonValue)>, key: &str, val: &Option<String>)
    ensures
        json_fields_view(final(out)@) == json_fields_view(old(out)@) + opt_str_seg(
            key@,
            match val {
                Some(s) => Some(s@),
                None => None,
            },
        ),
{
    match val {
        Some(s) => push_str_field(out, key, s),
        None => {
            assert(json_fields_view(out@) =~= json_fields_view(out@) + Seq::<
                (Seq<char>, Json),
            >::empty());
        },
    }
}

/// Append an optional integer field.
pub fn push_opt_int_field(out: &mut Vec<(String, JsonValue)>, key: &str, val: &Option<i64>)
    ensures
        json_fields_view(final(out)@) == json_fields_view(old(out)@) + opt_int_seg(
            key@,
            match val {
                Some(n) => Some(*n as int),
                None => None,
            },
        ),
{
    match val {
        Some(n) => push_int_field(out, key, *n),
        None => {
            assert(json_fields_view(out@) =~= json_fields_view(out@) + Seq::<
                (Seq<char>, Json),
            >::empty());
        },
    }
}

/// Append an optional boolean field.
pub fn push_opt_bool_field(out: &mut Vec<(String, JsonValue)>, key: &str, val: &Option<bool>)
    ensures
        json_fields_view(final(out)@) == json_fields_view(old(out)@) + opt_bool_seg(
            key@,
            match val {
                Some(b) => Some(*b),
                None => None,
            },
        ),
{
    match val {
        Some(b) => push_bool_field(out, key, *b),
        None => {
            assert(json_fields_view(out@) =~= json_fields_view(out@) + Seq::<
                (Seq<char>, Json),
            >::empty());
        },
    }
}

/// Appending one entry extends the field-wise view by one pair.
pub proof fn lemma_fields_view_push(s: Seq<(String, JsonValue)>)
    requires
        s.len() > 0,
    ensures
        json_fields_view(s) == json_fields_view(s.drop_last()) + seq![
            (s.last().0@, s.last().1@),
        ],
    decreases s.len(),
{
    lemma_json_fields_view(s);
    lemma_json_fields_view(s.drop_last());
    let lhs = json_fields_view(s);
    let rhs = json_fields_view(s.drop_last()) + seq![(s.last().0@, s.last().1@)];
    assert forall|q: int| 0 <= q < lhs.len() implies lhs[q] == rhs[q] by {
        assert(lhs[q] == (s[q].0@, s[q].1@));
        if q < s.len() - 1 {
            assert(s.drop_last()[q] == s[q]);
            assert(json_fields_view(s.drop_last())[q] == (s.drop_last()[q].0@, s.drop_last()[q].1@));
        } else {
            assert(s.last() == s[q]);
        }
    }
    assert(lhs =~= rhs);
}

// ─── Serialisation: the mathematical form ───

pub open spec fn spec_digit_char(d: int) -> char {
    ((48 + d) as u8) as char
}

pub open spec fn spec_hex_char(d: int) -> char {
    if d < 10 {
        ((48 + d) as u8) as char
    } else {
        ((87 + d) as u8) as char
    }
}

/// Decimal digits of `n`, most significant first.
pub open spec fn spec_digits(n: nat) -> Seq<char>
    decreases n,
{
    if n < 10 {
        seq![spec_digit_char(n as int)]
    } else {
        spec_digits(n / 10).push(spec_digit_char((n % 10) as int))
    }
}

/// The canonical decimal form of an integer.
pub open spec fn spec_int_chars(n: int) -> Seq<char> {
    if n < 0 {
        seq!['-'] + spec_digits((-n) as nat)
    } else {
        spec_digits(n as nat)
    }
}

/// How one character appears inside a JSON string literal: quote, backslash
/// and the named control characters get two-character escapes; any other
/// control character gets a `\u00XX` escape; everything else stands as is.
pub open spec fn spec_escape_char(c: char) -> Seq<char> {
    if c == '"' {
        seq!['\\', '"']
    } else if c == '\\' {
        seq!['\\', '\\']
    } else if c == '\u{08}' {
        seq!['\\', 'b']
    } else if c == '\u{0c}' {
        seq!['\\', 'f']
    } else if c == '\n' {
        seq!['\\', 'n']
    } else if c == '\r' {
        seq!['\\', 'r']
    } else if c == '\t' {
        seq!['\\', 't']
    } else if (c as u32) < 32 {
        seq!['\\', 'u', '0', '0', spec_hex_char(((c as u32) / 16) as int), spec_hex_char(
            ((c as u32) % 16) as int,
        )]
    } else {
        seq![c]
    }
}

pub open spec fn spec_escape_str(s: Seq<char>) -> Seq<char>
    decreases s.len(),
{
    if s.len() == 0 {
        Seq::empty()
    } else {
        spec_escape_char(s[0]) + spec_escape_str(s.drop_first())
    }
}

pub open spec fn spec_ser_string(s: Seq<char>) -> Seq<char> {
    seq!['"'] + spec_escape_str(s) + seq!['"']
}

/// The serialised form of a document: compact, no inter-token whitespace,
/// fields and items in stored order.
pub open spec fn spec_ser(j: Json) -> Seq<char>
    decreases j, 1int,
{
    match j {
        Json::Null => "null"@,
        Json::Bool(b) => if b {
            "true"@
        } else {
            "false"@
        },
        Json::Int(n) => spec_int_chars(n),
        Json::Str(s) => spec_ser_string(s),
        Json::Arr(items) => seq!['['] + (if items.len() == 0 {
            Seq::<char>::empty()
        } else {
            spec_ser(items[0]) + spec_ser_items_rest(items.drop_first())
        }) + seq![']'],
        Json::Obj(fields) => seq!['{'] + (if fields.len() == 0 {
            Seq::<char>::empty()
        } else {
            spec_ser_field(fields[0]) + spec_ser_fields_rest(fields.drop_first())
        }) + seq!['}'],
    }
}

pub open spec fn spec_ser_field(f: (Seq<char>, Json)) -> Seq<char>
    decreases f, 0int,
{
    spec_ser_string(f.0) + seq![':'] + spec_ser(f.1)
}

/// Items after the first, each preceded by a comma.
pub open spec fn spec_ser_items_rest(items: Seq<Json>) -> Seq<char>
    decreases items, 2int,
{
    if items.len() == 0 {
        Seq::empty()
    } else {
        seq![','] + spec_ser(items[0]) + spec_ser_items_rest(items.drop_first())
    }
}

/// Fields after the first, each preceded by a comma.
pub open spec fn spec_ser_fields_rest(fields: Seq<(Seq<char>, Json)>) -> Seq<char>
    decreases fields, 2int,
{
    if fields.len() == 0 {
        Seq::empty()
    } else {
        seq![','] + spec_ser_field(fields[0]) + spec_ser_fields_rest(fields.drop_first())
    }
}

// ─── Serialisation: the executable codec ───

fn hex_char_of(d: u32) -> (c: char)
    requires
        d < 16,
    ensures
        c == spec_hex_char(d as int),
{
    if d < 10 {
        ((48 + d) as u8) as char
    } else {
        ((87 + d) as u8) as char
    }
}

fn push_u64_digits(n: u64, out: &mut String)
    ensures
        final(out)@ == old(out)@ + spec_digits(n as nat),
    decreases n,
{
    if n < 10 {
        out.push(((48 + n) as u8) as char);
    } else {
        push_u64_digits(n / 10, out);
        out.push(((48 + n % 10) as u8) as char);
    }
}

fn push_escaped(c: char, out: &mut String)
    ensures
        final(out)@ == old(out)@ + spec_escape_char(c),
{
    if c == '"' {
        out.push('\\');
        out.push('"');
    } else if c == '\\' {
        out.push('\\');
        out.push('\\');
    } else if c == '\u{08}' {
        out.push('\\');
        out.push('b');
    } else if c == '\u{0c}' {
        out.push('\\');
        out.push('f');
    } else if c == '\n' {
        out.push('\\');
        out.push('n');
    } else if c == '\r' {
        out.push('\\');
        out.push('r');
    } else if c == '\t' {
        out.push('\\');
        out.push('t');
    } else if (c as u32) < 32 {
        out.push('\\');
        out.push('u');
        out.push('0');
        out.push('0');
        out.push(hex_char_of((c as u32) / 16));
        out.push(hex_char_of((c as u32) % 16));
        assert(out@ =~= old(out)@ + spec_escape_char(c));
    } else {
        out.push(c);
    }
    assert(out@ =~= old(out)@ + spec_escape_char(c));
}

proof fn lemma_escape_str_push(s: Seq<char>, c: char)
    ensures
        spec_escape_str(s.push(c)) == spec_escape_str(s) + spec_escape_char(c),
    decreases s.len(),
{
    if s.len() == 0 {
        assert(s.push(c)[0] == c);
        assert(s.push(c).drop_first() =~= Seq::<char>::empty());
        assert(spec_escape_str(s.push(c)) == spec_escape_char(c) + spec_escape_str(
            Seq::<char>::empty(),
        ));
        assert(spec_escape_char(c) + Seq::<char>::empty() =~= Seq::<char>::empty()
            + spec_escape_char(c));
    } else {
        assert(s.push(c).drop_first() =~= s.drop_first().push(c));
        lemma_escape_str_push(s.drop_first(), c);
        assert(spec_escape_str(s.push(c)) =~= spec_escape_str(s) + spec_escape_char(c));
    }
}

fn push_string_literal(s: &str, out: &mut String)
    ensures
        final(out)@ == old(out)@ + spec_ser_string(s@),
{
    let cv = crate::text::chars_vec(s);
    out.push('"');
    let n = cv.len();
    for i in 0..n
        invariant
            n == cv@.len(),
            cv@ == s@,
            out@ == old(out)@ + seq!['"'] + spec_escape_str(s@.take(i as int)),
    {
        push_escaped(cv[i], out);
        proof {
            assert(s@.take(i + 1).drop_last() =~= s@.take(i as int));
            assert(s@.take(i + 1) =~= s@.take(i as int).push(s@[i as int]));
            lemma_escape_str_push(s@.take(i as int), s@[i as int]);
        }
    }
    out.push('"');
    proof {
        assert(s@.take(n as int) =~= s@);
        assert(out@ =~= old(out)@ + spec_ser_string(s@));
    }
}

fn ser_into(v: &JsonValue, out: &mut String)
    ensures
        final(out)@ == old(out)@ + spec_ser(v@),
    decreases v, 1int,
{
    match v {
        JsonValue::Null => {
            out.append("null");
        },
        JsonValue::Bool(b) => {
            if *b {
                out.append("true");
            } else {
                out.append("false");
            }
        },
        JsonValue::Int(n) => {
            let nn = *n;
            if nn < 0 {
                out.push('-');
                let m: u64 = (-(nn as i128)) as u64;
                push_u64_digits(m, out);
                assert(out@ =~= old(out)@ + spec_int_chars(nn as int));
            } else {
                push_u64_digits(nn as u64, out);
            }
        },
        JsonValue::Str(s) => {
            push_string_literal(s.as_str(), out);
        },
        JsonValue::Arr(items) => {
            out.push('[');
            proof {
                lemma_json_seq_view(items@);
            }
            if items.len() > 0 {
                ser_into(&items[0], out);
                ser_items_rest(items, 1, out);
                proof {
                    let iv = json_seq_view(items@);
                    assert(iv.drop_first() =~= iv.skip(1));
                }
            }
            out.push(']');
            assert(out@ =~= old(out)@ + spec_ser(v@));
        },
        JsonValue::Obj(fields) => {
            out.push('{');
            proof {
                lemma_json_fields_view(fields@);
            }
            if fields.len() > 0 {
                push_string_literal(fields[0].0.as_str(), out);
                out.push(':');
                ser_into(&fields[0].1, out);
                ser_fields_rest(fields, 1, out);
                proof {
                    let fv = json_fields_view(fields@);
                    assert(fv.drop_first() =~= fv.skip(1));
                    assert(fv[0] == (fields@[0].0@, fields@[0].1@));
                    assert(spec_ser_field(fv[0]) == spec_ser_string(fields@[0].0@) + seq![':']
                        + spec_ser(fields@[0].1@));
                }
            }
            out.push('}');
            assert(out@ =~= old(out)@ + spec_ser(v@));
        },
    }
}

fn ser_items_rest(items: &Vec<JsonValue>, from: usize, out: &mut String)
    requires
        1 <= from <= items@.len(),
    ensures
        final(out)@ == old(out)@ + spec_ser_items_rest(json_seq_view(items@).skip(from as int)),
    decreases items, items@.len() - from,
{
    let ghost iv = json_seq_view(items@);
    proof {
        lemma_json_seq_view(items@);
    }
    if from < items.len() {
        out.push(',');
        ser_into(&items[from], out);
        ser_items_rest(items, from + 1, out);
        proof {
            assert(iv.skip(from as int)[0] == iv[from as int]);
            assert(iv.skip(from as int).drop_first() =~= iv.skip(from + 1));
            assert(out@ =~= old(out)@ + spec_ser_items_rest(iv.skip(from as int)));
        }
    } else {
        assert(iv.skip(from as int).len() == 0);
        assert(out@ =~= old(out)@ + spec_ser_items_rest(iv.skip(from as int)));
    }
}

fn ser_fields_rest(fields: &Vec<(String, JsonValue)>, from: usize, out: &mut String)
    requires
        1 <= from <= fields@.len(),
    ensures
        final(out)@ == old(out)@ + spec_ser_fields_rest(
            json_fields_view(fields@).skip(from as int),
        ),
    decreases fields, fields@.len() - from,
{
    let ghost fv = json_fields_view(fields@);
    proof {
        lemma_json_fields_view(fields@);
    }
    if from < fields.len() {
        out.push(',');
        push_string_literal(fields[from].0.as_str(), out);
        out.push(':');
        ser_into(&fields[from].1, out);
        ser_fields_rest(fields, from + 1, out);
        proof {
            assert(fv.skip(from as int)[0] == fv[from as int]);
            assert(fv.skip(from as int).drop_first() =~= fv.skip(from + 1));
            assert(fv[from as int] == (fields@[from as int].0@, fields@[from as int].1@));
            assert(spec_ser_field(fv[from as int]) == spec_ser_string(fields@[from as int].0@)
                + seq![':'] + spec_ser(fields@[from as int].1@));
            assert(out@ =~= old(out)@ + spec_ser_fields_rest(fv.skip(from as int)));
        }
    } else {
        assert(fv.skip(from as int).len() == 0);
        assert(out@ =~= old(out)@ + spec_ser_fields_rest(fv.skip(from as int)));
    }
}

/// Structural copy of a document, exact by construction.
pub fn clone_json(v: &JsonValue) -> (r: JsonValue)
    ensures
        r@ == v@,
    decreases v, 1int,
{
    match v {
        JsonValue::Null => JsonValue::Null,
        JsonValue::Bool(b) => JsonValue::Bool(*b),
        JsonValue::Int(n) => JsonValue::Int(*n),
        JsonValue::Str(s) => JsonValue::Str(s.clone()),
        JsonValue::Arr(items) => {
            let c = clone_json_items(items, 0);
            proof {
                assert(json_seq_view(items@).skip(0) =~= json_seq_view(items@));
            }
            JsonValue::Arr(c)
        },
        JsonValue::Obj(fields) => {
            let c = clone_json_fields(fields, 0);
            proof {
                assert(json_fields_view(fields@).skip(0) =~= json_fields_view(fields@));
            }
            JsonValue::Obj(c)
        },
    }
}

fn clone_json_items(items: &Vec<JsonValue>, from: usize) -> (r: Vec<JsonValue>)
    requires
        from <= items@.len(),
    ensures
        json_seq_view(r@) == json_seq_view(items@).skip(from as int),
    decreases items, items@.len() - from,
{
    let ghost iv = json_seq_view(items@);
    proof {
        lemma_json_seq_view(items@);
    }
    if from < items.len() {
        let first = clone_json(&items[from]);
        let ghost firstv = first@;
        let rest = clone_json_items(items, from + 1);
        let ghost restv = json_seq_view(rest@);
        let mut out = rest;
        out.insert(0, first);
        proof {
            assert(out@.drop_first() =~= rest@);
            lemma_json_seq_view(out@);
            lemma_json_seq_view(rest@);
            assert(json_seq_view(out@) =~= seq![firstv] + restv);
            assert(iv.skip(from as int)[0] == iv[from as int]);
            assert(iv.skip(from as int).drop_first() =~= iv.skip(from + 1));
            assert(json_seq_view(out@) =~= iv.skip(from as int));
        }
        out
    } else {
        let out: Vec<JsonValue> = Vec::new();
        proof {
            assert(iv.skip(from as int).len() == 0);
            assert(json_seq_view(out@) =~= iv.skip(from as int));
        }
        out
    }
}

fn clone_json_fields(fields: &Vec<(String, JsonValue)>, from: usize) -> (r: Vec<
    (String, JsonValue),
>)
    requires
        from <= fields@.len(),
    ensures
        json_fields_view(r@) == json_fields_view(fields@).skip(from as int),
    decreases fields, fields@.len() - from,
{
    let ghost fv = json_fields_view(fields@);
    proof {
        lemma_json_fields_view(fields@);
    }
    if from < fields.len() {
        let key = fields[from].0.clone();
        let val = clone_json(&fields[from].1);
        let ghost keyv = key@;
        let ghost valv = val@;
        let rest = clone_json_fields(fields, from + 1);
        let ghost restv = json_fields_view(rest@);
        let mut out = rest;
        out.insert(0, (key, val));
        proof {
            assert(out@.drop_first() =~= rest@);
            assert(out@[0].0@ == keyv && out@[0].1@ == valv);
            lemma_json_fields_view(out@);
            lemma_json_fields_view(rest@);
            assert(json_fields_view(out@) =~= seq![(keyv, valv)] + restv);
            assert(fv.skip(from as int)[0] == fv[from as int]);
            assert(fv.skip(from as int).drop_first() =~= fv.skip(from + 1));
            assert(json_fields_view(out@) =~= fv.skip(from as int));
        }
        out
    } else {
        let out: Vec<(String, JsonValue)> = Vec::new();
        proof {
            assert(fv.skip(from as int).len() == 0);
            assert(json_fields_view(out@) =~= fv.skip(from as int));
        }
        out
    }
}

/// The canonical decimal form of an unsigned 64-bit integer.
pub fn u64_to_string(n: u64) -> (s: String)
    ensures
        s@ == spec_digits(n as nat),
{
    let mut s = String::new();
    push_u64_digits(n, &mut s);
    proof {
        assert(s@ =~= spec_digits(n as nat));
    }
    s
}

/// Serialise a document to its compact textual form.
pub fn serialize_json(v: &JsonValue) -> (out: String)
    ensures
        out@ == spec_ser(v@),
{
    let mut out = String::new();
    ser_into(v, &mut out);
    proof {
        assert(out@ =~= spec_ser(v@));
    }
    out
}

} // verus!
