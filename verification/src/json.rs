//! A small JSON document model. `Json` is the executable tree, `JsonV` its
//! mathematical counterpart; `json_text` is the canonical serialization that
//! the relay's responses and upstream payloads are stated and proved against.
use vstd::prelude::*;

use crate::outside::chars_to_string;

verus! {

/// Mathematical JSON value: the view of `Json`.
#[verifier::ext_equal]
pub enum JsonV {
    Null,
    Bool(bool),
    /// A number, kept as its decimal text.
    Num(Seq<char>),
    Str(Seq<char>),
    Arr(Seq<JsonV>),
    Obj(Seq<(Seq<char>, JsonV)>),
}

/// Executable JSON value. Numbers keep their decimal text: the relay never
/// computes with them, it only carries them through.
#[derive(Debug, PartialEq, Eq)]
pub enum Json {
    Null,
    Bool(bool),
    Num(String),
    Str(String),
    Arr(Vec<Json>),
    Obj(Vec<(String, Json)>),
}

pub open spec fn jview(j: Json) -> JsonV
    decreases j,
{
    match j {
        Json::Null => JsonV::Null,
        Json::Bool(b) => JsonV::Bool(b),
        Json::Num(s) => JsonV::Num(s@),
        Json::Str(s) => JsonV::Str(s@),
        Json::Arr(a) => JsonV::Arr(
            Seq::new(a@.len(), |i: int| if 0 <= i < a@.len() { jview(a@[i]) } else { JsonV::Null }),
        ),
        Json::Obj(m) => JsonV::Obj(
            Seq::new(
                m@.len(),
                |i: int|
                    if 0 <= i < m@.len() {
                        (m@[i].0@, jview(m@[i].1))
                    } else {
                        (Seq::<char>::empty(), JsonV::Null)
                    },
            ),
        ),
    }
}

pub open spec fn hex_digit(n: int) -> char {
    if n == 0 { '0' } else if n == 1 { '1' } else if n == 2 { '2' } else if n == 3 { '3' }
    else if n == 4 { '4' } else if n == 5 { '5' } else if n == 6 { '6' } else if n == 7 { '7' }
    else if n == 8 { '8' } else if n == 9 { '9' } else if n == 10 { 'a' } else if n == 11 { 'b' }
    else if n == 12 { 'c' } else if n == 13 { 'd' } else if n == 14 { 'e' } else { 'f' }
}

/// How one character appears inside a JSON string literal: quote and
/// backslash are escaped, control characters get their short escapes or a
/// `\u00XX` form, and every other character stands as itself.
pub open spec fn esc_char(c: char) -> Seq<char> {
    if c == '"' { seq!['\\', '"'] }
    else if c == '\\' { seq!['\\', '\\'] }
    else if c == '\u{8}' { seq!['\\', 'b'] }
    else if c == '\t' { seq!['\\', 't'] }
    else if c == '\n' { seq!['\\', 'n'] }
    else if c == '\u{c}' { seq!['\\', 'f'] }
    else if c == '\r' { seq!['\\', 'r'] }
    else if (c as u32) < 0x20 {
        seq!['\\', 'u', '0', '0', hex_digit((c as u32) as int / 16), hex_digit((c as u32) as int % 16)]
    } else {
        seq![c]
    }
}

pub open spec fn esc_string(s: Seq<char>) -> Seq<char>
    decreases s.len(),
{
    if s.len() == 0 {
        Seq::empty()
    } else {
        esc_char(s[0]) + esc_string(s.drop_first())
    }
}

/// A JSON string literal: the escaped text between double quotes.
pub open spec fn quoted(s: Seq<char>) -> Seq<char> {
    seq!['"'] + esc_string(s) + seq!['"']
}

pub open spec fn comma_join(ts: Seq<Seq<char>>) -> Seq<char>
    decreases ts.len(),
{
    if ts.len() == 0 {
        Seq::empty()
    } else if ts.len() == 1 {
        ts[0]
    } else {
        ts[0] + seq![','] + comma_join(ts.drop_first())
    }
}

/// The canonical text of a JSON value: no whitespace, members in the order
/// they are held, string contents escaped by `esc_char`.
pub open spec fn json_text(j: JsonV) -> Seq<char>
    decreases j, 1int,
{
    match j {
        JsonV::Null => "null"@,
        JsonV::Bool(b) => if b { "true"@ } else { "false"@ },
        JsonV::Num(s) => s,
        JsonV::Str(s) => quoted(s),
        JsonV::Arr(a) => seq!['['] + comma_join(arr_item_texts(a)) + seq![']'],
        JsonV::Obj(m) => seq!['{'] + comma_join(obj_member_texts(m)) + seq!['}'],
    }
}

/// The texts of an array's items, in order.
pub open spec fn arr_item_texts(a: Seq<JsonV>) -> Seq<Seq<char>>
    decreases a, 0int,
{
    Seq::new(a.len(), |i: int| if 0 <= i < a.len() { json_text(a[i]) } else { Seq::<char>::empty() })
}

/// The texts of an object's members, in order: quoted key, colon, value.
pub open spec fn obj_member_texts(m: Seq<(Seq<char>, JsonV)>) -> Seq<Seq<char>>
    decreases m, 0int,
{
    Seq::new(m.len(), |i: int| if 0 <= i < m.len() { quoted(m[i].0) + seq![':'] + json_text(m[i].1) } else { Seq::<char>::empty() })
}

proof fn lemma_esc_string_push(u: Seq<char>, c: char)
    ensures
        esc_string(u.push(c)) == esc_string(u) + esc_char(c),
    decreases u.len(),
{
    if u.len() == 0 {
        assert(u.push(c) =~= seq![c]);
        assert(u.push(c)[0] == c);
        assert(u.push(c).drop_first() =~= Seq::<char>::empty());
        assert(esc_string(u.push(c)) == esc_char(c) + esc_string(Seq::<char>::empty()));
        assert(esc_char(c) + Seq::<char>::empty() =~= esc_char(c));
        assert(esc_string(u) + esc_char(c) =~= esc_char(c));
    } else {
        assert(u.push(c).drop_first() =~= u.drop_first().push(c));
        lemma_esc_string_push(u.drop_first(), c);
        assert(esc_string(u.push(c)) =~= esc_string(u) + esc_char(c));
    }
}

proof fn lemma_comma_join_push(ts: Seq<Seq<char>>, t: Seq<char>)
    ensures
        comma_join(ts.push(t)) == if ts.len() == 0 { t } else { comma_join(ts) + seq![','] + t },
    decreases ts.len(),
{
    if ts.len() == 0 {
        assert(ts.push(t) =~= seq![t]);
        assert(comma_join(ts.push(t)) == t);
    } else if ts.len() == 1 {
        assert(ts.push(t).drop_first() =~= seq![t]);
        assert(ts.push(t)[0] == ts[0]);
        assert(comma_join(seq![t]) == t);
        assert(comma_join(ts.push(t)) == ts[0] + seq![','] + t);
        assert(comma_join(ts) + seq![','] + t =~= ts[0] + seq![','] + t);
    } else {
        assert(ts.push(t).drop_first() =~= ts.drop_first().push(t));
        lemma_comma_join_push(ts.drop_first(), t);
        assert(comma_join(ts.push(t)) =~= comma_join(ts) + seq![','] + t);
    }
}

fn hex_char(n: u32) -> (c: char)
    requires
        n < 16,
    ensures
        c == hex_digit(n as int),
{
    match n {
        0 => '0', 1 => '1', 2 => '2', 3 => '3', 4 => '4', 5 => '5', 6 => '6', 7 => '7',
        8 => '8', 9 => '9', 10 => 'a', 11 => 'b', 12 => 'c', 13 => 'd', 14 => 'e', _ => 'f',
    }
}

/// Appends the characters of `s` to `out`.
pub fn push_str_chars(s: &str, out: &mut Vec<char>)
    ensures
        final(out)@ == old(out)@ + s@,
{
    let n = s.unicode_len();
    let mut i: usize = 0;
    while i < n
        invariant
            i <= n,
            n == s@.len(),
            out@ == old(out)@ + s@.take(i as int),
        decreases n - i,
    {
        out.push(s.get_char(i));
        proof {
            assert(s@.take(i + 1 as int) =~= s@.take(i as int).push(s@[i as int]));
        }
        i = i + 1;
    }
    proof {
        assert(s@.take(n as int) =~= s@);
    }
}

/// Appends the escaped form of `s` to `out`.
fn write_escaped(s: &str, out: &mut Vec<char>)
    ensures
        final(out)@ == old(out)@ + esc_string(s@),
{
    let n = s.unicode_len();
    let mut i: usize = 0;
    while i < n
        invariant
            i <= n,
            n == s@.len(),
            out@ == old(out)@ + esc_string(s@.take(i as int)),
        decreases n - i,
    {
        let c = s.get_char(i);
        if c == '"' {
            out.push('\\');
            out.push('"');
        } else if c == '\\' {
            out.push('\\');
            out.push('\\');
        } else if c == '\u{8}' {
            out.push('\\');
            out.push('b');
        } else if c == '\t' {
            out.push('\\');
            out.push('t');
        } else if c == '\n' {
            out.push('\\');
            out.push('n');
        } else if c == '\u{c}' {
            out.push('\\');
            out.push('f');
        } else if c == '\r' {
            out.push('\\');
            out.push('r');
        } else {
            let code = c as u32;
            if code < 0x20 {
                out.push('\\');
                out.push('u');
                out.push('0');
                out.push('0');
                out.push(hex_char(code / 16));
                out.push(hex_char(code % 16));
            } else {
                out.push(c);
            }
        }
        proof {
            lemma_esc_string_push(s@.take(i as int), s@[i as int]);
            assert(s@.take(i + 1 as int) =~= s@.take(i as int).push(s@[i as int]));
        }
        i = i + 1;
    }
    proof {
        assert(s@.take(n as int) =~= s@);
    }
}

/// Appends the canonical text of `j` to `out`.
pub fn write_json(j: &Json, out: &mut Vec<char>)
    ensures
        final(out)@ == old(out)@ + json_text(jview(*j)),
    decreases *j,
{
    match j {
        Json::Null => {
            push_str_chars("null", out);
        },
        Json::Bool(b) => {
            if *b {
                push_str_chars("true", out);
            } else {
                push_str_chars("false", out);
            }
        },
        Json::Num(s) => {
            push_str_chars(s.as_str(), out);
        },
        Json::Str(s) => {
            out.push('"');
            write_escaped(s.as_str(), out);
            out.push('"');
            proof {
                assert(out@ =~= old(out)@ + quoted(s@));
            }
        },
        Json::Arr(a) => {
            let ghost av = jview(*j)->Arr_0;
            let ghost texts = arr_item_texts(av);
            out.push('[');
            let mut i: usize = 0;
            while i < a.len()
                invariant
                    i <= a.len(),
                    *j == Json::Arr(*a),
                    jview(*j) == JsonV::Arr(av),
                    av.len() == a@.len(),
                    forall|k: int| 0 <= k < a@.len() ==> av[k] == jview(a@[k]),
                    texts == arr_item_texts(av),
                    out@ == old(out)@ + seq!['['] + comma_join(texts.take(i as int)),
                decreases a.len() - i,
            {
                if i > 0 {
                    out.push(',');
                }
                proof {
                    assert(decreases_to!(*j => *a));
                    assert(decreases_to!(*a => a@[i as int]));
                }
                write_json(&a[i], out);
                proof {
                    assert(texts[i as int] == json_text(av[i as int]));
                    lemma_comma_join_push(texts.take(i as int), texts[i as int]);
                    assert(texts.take(i + 1 as int) =~= texts.take(i as int).push(texts[i as int]));
                    assert(out@ =~= old(out)@ + seq!['['] + comma_join(texts.take(i + 1 as int)));
                }
                i = i + 1;
            }
            out.push(']');
            proof {
                assert(texts.take(av.len() as int) =~= texts);
                assert(out@ =~= old(out)@ + json_text(jview(*j)));
            }
        },
        Json::Obj(m) => {
            let ghost mems = jview(*j)->Obj_0;
            let ghost texts = obj_member_texts(mems);
            out.push('{');
            let mut i: usize = 0;
            while i < m.len()
                invariant
                    i <= m.len(),
                    *j == Json::Obj(*m),
                    jview(*j) == JsonV::Obj(mems),
                    mems.len() == m@.len(),
                    forall|k: int| 0 <= k < m@.len() ==> mems[k] == (m@[k].0@, jview(m@[k].1)),
                    texts == obj_member_texts(mems),
                    out@ == old(out)@ + seq!['{'] + comma_join(texts.take(i as int)),
                decreases m.len() - i,
            {
                if i > 0 {
                    out.push(',');
                }
                let ghost before = out@;
                out.push('"');
                write_escaped(m[i].0.as_str(), out);
                out.push('"');
                out.push(':');
                proof {
                    assert(decreases_to!(*j => *m));
                    assert(decreases_to!(*m => m@[i as int]));
                    assert(decreases_to!(m@[i as int] => m@[i as int].1));
                }
                write_json(&m[i].1, out);
                proof {
                    assert(out@ =~= before + quoted(m@[i as int].0@) + seq![':'] + json_text(jview(m@[i as int].1)));
                    assert(texts[i as int] == quoted(mems[i as int].0) + seq![':'] + json_text(mems[i as int].1));
                    assert(out@ =~= before + texts[i as int]);
                    lemma_comma_join_push(texts.take(i as int), texts[i as int]);
                    assert(texts.take(i + 1 as int) =~= texts.take(i as int).push(texts[i as int]));
                    assert(out@ =~= old(out)@ + seq!['{'] + comma_join(texts.take(i + 1 as int)));
                }
                i = i + 1;
            }
            out.push('}');
            proof {
                assert(texts.take(mems.len() as int) =~= texts);
                assert(out@ =~= old(out)@ + json_text(jview(*j)));
            }
        },
    }
}

/// The canonical text of `j` as a character vector.
pub fn json_to_chars(j: &Json) -> (r: Vec<char>)
    ensures
        r@ == json_text(jview(*j)),
{
    let mut out: Vec<char> = Vec::new();
    write_json(j, &mut out);
    out
}

/// The canonical text of `j` as a `String`.
pub fn json_to_string(j: &Json) -> (r: String)
    ensures
        r@ == json_text(jview(*j)),
{
    let chars = json_to_chars(j);
    chars_to_string(&chars)
}

/// The value of the first member of `m` named `k`, if any.
pub open spec fn obj_lookup(m: Seq<(Seq<char>, JsonV)>, k: Seq<char>) -> Option<JsonV>
    decreases m.len(),
{
    if m.len() == 0 {
        None
    } else if m[0].0 == k {
        Some(m[0].1)
    } else {
        obj_lookup(m.drop_first(), k)
    }
}

/// The text of member `k` of `j`, provided `j` is an object and that member
/// is a string.
pub open spec fn str_field(j: JsonV, k: Seq<char>) -> Option<Seq<char>> {
    match j {
        JsonV::Obj(m) => match obj_lookup(m, k) {
            Some(JsonV::Str(s)) => Some(s),
            _ => None,
        },
        _ => None,
    }
}

/// Character-for-character string comparison.
pub fn str_eq(a: &str, b: &str) -> (r: bool)
    ensures
        r == (a@ == b@),
{
    let na = a.unicode_len();
    let nb = b.unicode_len();
    if na != nb {
        return false;
    }
    let mut i: usize = 0;
    while i < na
        invariant
            i <= na,
            na == a@.len(),
            na == b@.len(),
            forall|k: int| 0 <= k < i ==> a@[k] == b@[k],
        decreases na - i,
    {
        if a.get_char(i) != b.get_char(i) {
            return false;
        }
        i = i + 1;
    }
    proof {
        assert(a@ =~= b@);
    }
    true
}

/// Looks member `k` up in `j`, returning its text when it is a string.
pub fn get_str_field(j: &Json, k: &str) -> (r: Option<String>)
    ensures
        match r {
            Some(s) => str_field(jview(*j), k@) == Some(s@),
            None => str_field(jview(*j), k@) is None,
        },
{
    match j {
        Json::Obj(m) => {
            let ghost mems = jview(*j)->Obj_0;
            proof {
                assert(mems.skip(0) =~= mems);
            }
            let mut i: usize = 0;
            while i < m.len()
                invariant
                    i <= m.len(),
                    jview(*j) == JsonV::Obj(mems),
                    mems.len() == m@.len(),
                    forall|q: int| 0 <= q < m@.len() ==> mems[q] == (m@[q].0@, jview(m@[q].1)),
                    obj_lookup(mems, k@) == obj_lookup(mems.skip(i as int), k@),
                decreases m.len() - i,
            {
                if str_eq(m[i].0.as_str(), k) {
                    proof {
                        assert(mems.skip(i as int)[0] == mems[i as int]);
                        assert(obj_lookup(mems, k@) == Some(mems[i as int].1));
                    }
                    match &m[i].1 {
                        Json::Str(s) => {
                            return Some(s.clone());
                        },
                        _ => {
                            return None;
                        },
                    }
                }
                proof {
                    assert(mems.skip(i as int)[0] == mems[i as int]);
                    assert(mems.skip(i as int).drop_first() =~= mems.skip(i + 1 as int));
                }
                i = i + 1;
            }
            proof {
                assert(mems.skip(m@.len() as int) =~= Seq::<(Seq<char>, JsonV)>::empty());
            }
            None
        },
        _ => None,
    }
}

} // verus!
