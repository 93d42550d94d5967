//! The generic key/value structure that wire messages decode to, and the
//! canonical text rendering of it.
//!
//! Every inbound and outbound envelope on the wire is a JSON document.
//! `JsonValue` is this crate's model of such a document; `ser` is the
//! canonical, whitespace-free rendering that the verified serializer
//! produces, one complete document per outbound message.

use vstd::prelude::*;

use crate::text::{chars_string, dec_int, i64_dec_chars, str_chars};

verus! {

/// A decoded JSON document.
///
/// Numbers with an integral value in range are held as `Int`; any other
/// number is kept as its raw text in `Num`, so no precision is invented
/// or lost.
#[derive(Debug, PartialEq)]
pub enum JsonValue {
    Null,
    Bool(bool),
    Int(i64),
    /// A number that is not an integer in `i64` range, as raw text.
    Num(String),
    Str(String),
    Arr(Vec<JsonValue>),
    Obj(Vec<(String, JsonValue)>),
}

/// Mathematical model of a JSON document.
pub ghost enum JsonV {
    Null,
    Bool(bool),
    Int(i64),
    Num(Seq<char>),
    Str(Seq<char>),
    Arr(Seq<JsonV>),
    Obj(Seq<(Seq<char>, JsonV)>),
}

/// The model of a value: the same tree with sequences for buffers.
pub open spec fn jv(v: JsonValue) -> JsonV
    decreases v,
{
    match v {
        JsonValue::Null => JsonV::Null,
        JsonValue::Bool(b) => JsonV::Bool(b),
        JsonValue::Int(i) => JsonV::Int(i),
        JsonValue::Num(s) => JsonV::Num(s@),
        JsonValue::Str(s) => JsonV::Str(s@),
        JsonValue::Arr(xs) => JsonV::Arr(jv_seq(xs@)),
        JsonValue::Obj(fs) => JsonV::Obj(jv_fields(fs@)),
    }
}

pub open spec fn jv_seq(s: Seq<JsonValue>) -> Seq<JsonV>
    decreases s,
{
    if s.len() == 0 {
        Seq::empty()
    } else {
        jv_seq(s.drop_last()).push(jv(s.last()))
    }
}

pub open spec fn jv_fields(s: Seq<(String, JsonValue)>) -> Seq<(Seq<char>, JsonV)>
    decreases s,
{
    if s.len() == 0 {
        Seq::empty()
    } else {
        jv_fields(s.drop_last()).push((s.last().0@, jv(s.last().1)))
    }
}

impl View for JsonValue {
    type V = JsonV;

    open spec fn view(&self) -> JsonV {
        jv(*self)
    }
}

pub broadcast proof fn lemma_jv_seq_len(s: Seq<JsonValue>)
    ensures
        (#[trigger] jv_seq(s)).len() == s.len(),
        forall|i: int| 0 <= i < s.len() ==> jv_seq(s)[i] == jv(s[i]),
    decreases s,
{
    if s.len() > 0 {
        lemma_jv_seq_len(s.drop_last());
    }
}

pub broadcast proof fn lemma_jv_fields_len(s: Seq<(String, JsonValue)>)
    ensures
        (#[trigger] jv_fields(s)).len() == s.len(),
        forall|i: int|
            0 <= i < s.len() ==> jv_fields(s)[i] == (s[i].0@, jv(s[i].1)),
    decreases s,
{
    if s.len() > 0 {
        lemma_jv_fields_len(s.drop_last());
    }
}

impl Clone for JsonValue {
    /// A clone models the same document.
    #[verifier::loop_isolation(false)]
    fn clone(&self) -> (r: Self)
        ensures
            r@ == self@,
        decreases *self,
    {
        match self {
            JsonValue::Null => JsonValue::Null,
            JsonValue::Bool(b) => JsonValue::Bool(*b),
            JsonValue::Int(i) => JsonValue::Int(*i),
            JsonValue::Num(s) => JsonValue::Num(s.clone()),
            JsonValue::Str(s) => JsonValue::Str(s.clone()),
            JsonValue::Arr(xs) => {
                let mut out: Vec<JsonValue> = Vec::new();
                let n = xs.len();
                for i in 0..n
                    invariant
                        n == xs@.len(),
                        out@.len() == i,
                        forall|k: int| 0 <= k < i ==> jv(#[trigger] out@[k]) == jv(xs@[k]),
                    decreases n - i,
                {
                    proof {
                        broadcast use vstd::std_specs::vec::group_vec_axioms;

                        assert(decreases_to!(*self => self->Arr_0));
                        assert(decreases_to!(self->Arr_0 => self->Arr_0[i as int]));
                    }
                    out.push(xs[i].clone());
                }
                proof {
                    broadcast use lemma_jv_seq_len;

                    assert(jv_seq(out@) =~= jv_seq(xs@));
                }
                JsonValue::Arr(out)
            },
            JsonValue::Obj(fs) => {
                let mut out: Vec<(String, JsonValue)> = Vec::new();
                let n = fs.len();
                for i in 0..n
                    invariant
                        n == fs@.len(),
                        out@.len() == i,
                        forall|k: int|
                            0 <= k < i ==> (#[trigger] out@[k]).0@ == fs@[k].0@ && jv(out@[k].1)
                                == jv(fs@[k].1),
                    decreases n - i,
                {
                    proof {
                        broadcast use vstd::std_specs::vec::group_vec_axioms;

                        assert(decreases_to!(*self => self->Obj_0));
                        assert(decreases_to!(self->Obj_0 => self->Obj_0[i as int]));
                        assert(decreases_to!(self->Obj_0[i as int] => self->Obj_0[i as int].1));
                    }
                    let entry = &fs[i];
                    out.push((entry.0.clone(), entry.1.clone()));
                }
                proof {
                    broadcast use lemma_jv_fields_len;

                    assert(jv_fields(out@) =~= jv_fields(fs@));
                }
                JsonValue::Obj(out)
            },
        }
    }
}

/// The hexadecimal digit character for a value below sixteen.
pub open spec fn hex_digit(d: int) -> char {
    if d < 10 {
        crate::text::dec_digit(d)
    } else if d == 10 {
        'a'
    } else if d == 11 {
        'b'
    } else if d == 12 {
        'c'
    } else if d == 13 {
        'd'
    } else if d == 14 {
        'e'
    } else {
        'f'
    }
}

/// The escape sequence (or the character itself) emitted inside a JSON
/// string for one character.
pub open spec fn esc(c: char) -> Seq<char> {
    if c == '"' {
        seq!['\\', '"']
    } else if c == '\\' {
        seq!['\\', '\\']
    } else if c == '\n' {
        seq!['\\', 'n']
    } else if c == '\r' {
        seq!['\\', 'r']
    } else if c == '\t' {
        seq!['\\', 't']
    } else if (c as u32) < 0x20 {
        seq!['\\', 'u', '0', '0', hex_digit((c as u32) as int / 16), hex_digit((c as u32) as int % 16)]
    } else {
        seq![c]
    }
}

/// The body of a JSON string: each character escaped as needed.
pub open spec fn esc_str(s: Seq<char>) -> Seq<char>
    decreases s.len(),
{
    if s.len() == 0 {
        Seq::empty()
    } else {
        esc_str(s.drop_last()) + esc(s.last())
    }
}

/// The canonical rendering of a JSON document: no whitespace, strings
/// escaped by `esc`, integers in decimal.
pub open spec fn ser(v: JsonV) -> Seq<char>
    decreases v,
{
    match v {
        JsonV::Null => seq!['n', 'u', 'l', 'l'],
        JsonV::Bool(b) => if b {
            seq!['t', 'r', 'u', 'e']
        } else {
            seq!['f', 'a', 'l', 's', 'e']
        },
        JsonV::Int(i) => dec_int(i as int),
        JsonV::Num(s) => s,
        JsonV::Str(s) => seq!['"'] + esc_str(s) + seq!['"'],
        JsonV::Arr(xs) => seq!['['] + ser_items(xs) + seq![']'],
        JsonV::Obj(fs) => seq!['{'] + ser_fields(fs) + seq!['}'],
    }
}

pub open spec fn ser_items(xs: Seq<JsonV>) -> Seq<char>
    decreases xs,
{
    if xs.len() == 0 {
        Seq::empty()
    } else if xs.len() == 1 {
        ser(xs.last())
    } else {
        ser_items(xs.drop_last()) + seq![','] + ser(xs.last())
    }
}

pub open spec fn ser_fields(fs: Seq<(Seq<char>, JsonV)>) -> Seq<char>
    decreases fs,
{
    if fs.len() == 0 {
        Seq::empty()
    } else if fs.len() == 1 {
        ser_field(fs.last())
    } else {
        ser_fields(fs.drop_last()) + seq![','] + ser_field(fs.last())
    }
}

pub open spec fn ser_field(f: (Seq<char>, JsonV)) -> Seq<char>
    decreases f,
{
    seq!['"'] + esc_str(f.0) + seq!['"', ':'] + ser(f.1)
}

fn hex_char(d: u32) -> (c: char)
    requires
        d < 16,
    ensures
        c == hex_digit(d as int),
{
    if d == 10 {
        'a'
    } else if d == 11 {
        'b'
    } else if d == 12 {
        'c'
    } else if d == 13 {
        'd'
    } else if d == 14 {
        'e'
    } else if d == 15 {
        'f'
    } else {
        crate::text::digit_char(d as u64)
    }
}

/// Appends the escape sequence for one string character.
fn push_escaped(c: char, out: &mut Vec<char>)
    ensures
        final(out)@ == old(out)@ + esc(c),
{
    if c == '"' {
        out.push('\\');
        out.push('"');
    } else if c == '\\' {
        out.push('\\');
        out.push('\\');
    } else if c == '\n' {
        out.push('\\');
        out.push('n');
    } else if c == '\r' {
        out.push('\\');
        out.push('r');
    } else if c == '\t' {
        out.push('\\');
        out.push('t');
    } else {
        let code = c as u32;
        if code < 0x20 {
            out.push('\\');
            out.push('u');
            out.push('0');
            out.push('0');
            out.push(hex_char(code / 16));
            out.push(hex_char(code % 16));
        } else {
            out.push(c);
        }
    }
    assert(final(out)@ =~= old(out)@ + esc(c));
}

/// Appends a quoted, escaped JSON string.
fn write_quoted(s: &str, out: &mut Vec<char>)
    ensures
        final(out)@ == old(out)@ + seq!['"'] + esc_str(s@) + seq!['"'],
{
    let cs = str_chars(s);
    out.push('"');
    let n = cs.len();
    for i in 0..n
        invariant
            cs@ == s@,
            n == cs@.len(),
            out@ == old(out)@ + seq!['"'] + esc_str(s@.subrange(0, i as int)),
    {
        proof {
            assert(s@.subrange(0, i + 1).drop_last() =~= s@.subrange(0, i as int));
            assert(s@.subrange(0, i + 1).last() == s@[i as int]);
        }
        push_escaped(cs[i], out);
    }
    proof {
        assert(s@.subrange(0, s@.len() as int) =~= s@);
    }
    out.push('"');
    assert(final(out)@ =~= old(out)@ + seq!['"'] + esc_str(s@) + seq!['"']);
}

proof fn lemma_ser_items_snoc(xs: Seq<JsonV>, x: JsonV)
    ensures
        ser_items(xs.push(x)) == if xs.len() == 0 {
            ser(x)
        } else {
            ser_items(xs) + seq![','] + ser(x)
        },
{
    assert(xs.push(x).drop_last() =~= xs);
}

proof fn lemma_ser_fields_snoc(fs: Seq<(Seq<char>, JsonV)>, f: (Seq<char>, JsonV))
    ensures
        ser_fields(fs.push(f)) == if fs.len() == 0 {
            ser_field(f)
        } else {
            ser_fields(fs) + seq![','] + ser_field(f)
        },
{
    assert(fs.push(f).drop_last() =~= fs);
}

/// Appends the canonical rendering of a document.
pub fn write_json(v: &JsonValue, out: &mut Vec<char>)
    ensures
        final(out)@ == old(out)@ + ser(v@),
    decreases *v,
{
    match v {
        JsonValue::Null => {
            out.push('n');
            out.push('u');
            out.push('l');
            out.push('l');
            assert(final(out)@ =~= old(out)@ + ser(v@));
        },
        JsonValue::Bool(b) => {
            if *b {
                out.push('t');
                out.push('r');
                out.push('u');
                out.push('e');
            } else {
                out.push('f');
                out.push('a');
                out.push('l');
                out.push('s');
                out.push('e');
            }
            assert(final(out)@ =~= old(out)@ + ser(v@));
        },
        JsonValue::Int(i) => {
            let mut digits = i64_dec_chars(*i);
            out.append(&mut digits);
        },
        JsonValue::Num(s) => {
            let mut raw = str_chars(s.as_str());
            out.append(&mut raw);
        },
        JsonValue::Str(s) => {
            write_quoted(s.as_str(), out);
        },
        JsonValue::Arr(xs) => {
            proof {
                assert(decreases_to!(*v => v->Arr_0));
            }
            out.push('[');
            write_items(xs, out);
            out.push(']');
            assert(final(out)@ =~= old(out)@ + ser(v@));
        },
        JsonValue::Obj(fs) => {
            proof {
                assert(decreases_to!(*v => v->Obj_0));
            }
            out.push('{');
            write_fields(fs, out);
            out.push('}');
            assert(final(out)@ =~= old(out)@ + ser(v@));
        },
    }
}

/// Appends the comma-separated renderings of array elements.
#[verifier::loop_isolation(false)]
fn write_items(xs: &Vec<JsonValue>, out: &mut Vec<char>)
    ensures
        final(out)@ == old(out)@ + ser_items(jv_seq(xs@)),
    decreases *xs,
{
    let n = xs.len();
    for i in 0..n
        invariant
            n == xs@.len(),
            out@ == old(out)@ + ser_items(jv_seq(xs@.subrange(0, i as int))),
        decreases n - i,
    {
        proof {
            broadcast use vstd::std_specs::vec::group_vec_axioms;

            assert(decreases_to!(*xs => xs[i as int]));
        }
        if i > 0 {
            out.push(',');
        }
        write_json(&xs[i], out);
        proof {
            broadcast use lemma_jv_seq_len;

            assert(xs@.subrange(0, i + 1) =~= xs@.subrange(0, i as int).push(xs@[i as int]));
            assert(jv_seq(xs@.subrange(0, i + 1)) =~= jv_seq(xs@.subrange(0, i as int)).push(
                jv(xs@[i as int]),
            ));
            lemma_ser_items_snoc(jv_seq(xs@.subrange(0, i as int)), jv(xs@[i as int]));
            assert(out@ =~= old(out)@ + ser_items(jv_seq(xs@.subrange(0, i + 1))));
        }
    }
    proof {
        assert(xs@.subrange(0, xs@.len() as int) =~= xs@);
    }
}

/// Appends the comma-separated renderings of object members.
#[verifier::loop_isolation(false)]
fn write_fields(fs: &Vec<(String, JsonValue)>, out: &mut Vec<char>)
    ensures
        final(out)@ == old(out)@ + ser_fields(jv_fields(fs@)),
    decreases *fs,
{
    let n = fs.len();
    for i in 0..n
        invariant
            n == fs@.len(),
            out@ == old(out)@ + ser_fields(jv_fields(fs@.subrange(0, i as int))),
        decreases n - i,
    {
        proof {
            broadcast use vstd::std_specs::vec::group_vec_axioms;

            assert(decreases_to!(*fs => fs[i as int]));
            assert(decreases_to!(fs[i as int] => fs[i as int].1));
        }
        if i > 0 {
            out.push(',');
        }
        write_quoted(fs[i].0.as_str(), out);
        out.push(':');
        write_json(&fs[i].1, out);
        proof {
            broadcast use lemma_jv_fields_len;

            assert(fs@.subrange(0, i + 1) =~= fs@.subrange(0, i as int).push(fs@[i as int]));
            assert(jv_fields(fs@.subrange(0, i + 1)) =~= jv_fields(fs@.subrange(0, i as int)).push(
                (fs@[i as int].0@, jv(fs@[i as int].1)),
            ));
            lemma_ser_fields_snoc(
                jv_fields(fs@.subrange(0, i as int)),
                (fs@[i as int].0@, jv(fs@[i as int].1)),
            );
            assert(out@ =~= old(out)@ + ser_fields(jv_fields(fs@.subrange(0, i + 1))));
        }
    }
    proof {
        assert(fs@.subrange(0, fs@.len() as int) =~= fs@);
    }
}

/// The canonical rendering of a document, as characters.
pub fn json_to_chars(v: &JsonValue) -> (r: Vec<char>)
    ensures
        r@ == ser(v@),
{
    let mut out: Vec<char> = Vec::new();
    write_json(v, &mut out);
    out
}

/// The canonical rendering of a document, as a string.
pub fn json_to_string(v: &JsonValue) -> (r: String)
    ensures
        r@ == ser(v@),
{
    let out = json_to_chars(v);
    chars_string(&out)
}

/// The value bound to a key in an object's members: the first binding,
/// where several exist.
pub open spec fn lookup(fs: Seq<(Seq<char>, JsonV)>, k: Seq<char>) -> Option<JsonV>
    decreases fs.len(),
{
    if fs.len() == 0 {
        None
    } else if fs[0].0 == k {
        Some(fs[0].1)
    } else {
        lookup(fs.drop_first(), k)
    }
}

/// The members of an object with every binding for a key removed.
pub open spec fn remove_key(fs: Seq<(Seq<char>, JsonV)>, k: Seq<char>) -> Seq<(Seq<char>, JsonV)>
    decreases fs.len(),
{
    if fs.len() == 0 {
        Seq::empty()
    } else if fs.last().0 == k {
        remove_key(fs.drop_last(), k)
    } else {
        remove_key(fs.drop_last(), k).push(fs.last())
    }
}

proof fn lemma_lookup_skip(fs: Seq<(Seq<char>, JsonV)>, k: Seq<char>, i: int)
    requires
        0 <= i <= fs.len(),
        forall|j: int| 0 <= j < i ==> fs[j].0 != k,
    ensures
        lookup(fs, k) == lookup(fs.skip(i), k),
    decreases i,
{
    if i == 0 {
        assert(fs.skip(0) =~= fs);
    } else {
        assert(forall|j: int| 0 <= j < i - 1 ==> #[trigger] fs.drop_first()[j].0 == fs[j + 1].0);
        lemma_lookup_skip(fs.drop_first(), k, i - 1);
        assert(fs.drop_first().skip(i - 1) =~= fs.skip(i));
    }
}

/// Looks a key up among an object's members.
#[verifier::loop_isolation(false)]
pub fn obj_get<'a>(fs: &'a Vec<(String, JsonValue)>, key: &str) -> (r: Option<&'a JsonValue>)
    ensures
        match r {
            Some(v) => lookup(jv_fields(fs@), key@) == Some(v@),
            None => lookup(jv_fields(fs@), key@) is None,
        },
{
    let n = fs.len();
    for i in 0..n
        invariant
            n == fs@.len(),
            forall|j: int| 0 <= j < i ==> jv_fields(fs@)[j].0 != key@,
    {
        proof {
            broadcast use lemma_jv_fields_len;

        }
        if crate::text::str_eq(fs[i].0.as_str(), key) {
            proof {
                lemma_lookup_skip(jv_fields(fs@), key@, i as int);
                assert(jv_fields(fs@).skip(i as int)[0] == jv_fields(fs@)[i as int]);
            }
            return Some(&fs[i].1);
        }
    }
    proof {
        broadcast use lemma_jv_fields_len;

        lemma_lookup_skip(jv_fields(fs@), key@, fs@.len() as int);
        assert(jv_fields(fs@).skip(fs@.len() as int).len() == 0);
    }
    None
}

/// Whether an object has a binding for a key.
pub fn obj_has(fs: &Vec<(String, JsonValue)>, key: &str) -> (r: bool)
    ensures
        r == (lookup(jv_fields(fs@), key@) is Some),
{
    obj_get(fs, key).is_some()
}

/// Removes every binding for a key from an object's members.
#[verifier::loop_isolation(false)]
pub fn obj_remove(fs: &Vec<(String, JsonValue)>, key: &str) -> (r: Vec<(String, JsonValue)>)
    ensures
        jv_fields(r@) == remove_key(jv_fields(fs@), key@),
{
    let mut out: Vec<(String, JsonValue)> = Vec::new();
    let n = fs.len();
    for i in 0..n
        invariant
            n == fs@.len(),
            jv_fields(out@) == remove_key(jv_fields(fs@.subrange(0, i as int)), key@),
    {
        let entry = &fs[i];
        let ghost prev_out = out@;
        if !crate::text::str_eq(entry.0.as_str(), key) {
            out.push((entry.0.clone(), entry.1.clone()));
        }
        proof {
            broadcast use lemma_jv_fields_len;

            let f = (fs@[i as int].0@, jv(fs@[i as int].1));
            assert(jv_fields(fs@.subrange(0, i + 1)) =~= jv_fields(
                fs@.subrange(0, i as int),
            ).push(f));
            assert(jv_fields(fs@.subrange(0, i + 1)).drop_last() =~= jv_fields(
                fs@.subrange(0, i as int),
            ));
            if f.0 != key@ {
                assert(jv_fields(out@) =~= jv_fields(prev_out).push(f));
            }
        }
    }
    proof {
        assert(fs@.subrange(0, fs@.len() as int) =~= fs@);
    }
    out
}

/// Clones a vector of documents, preserving the models.
#[verifier::loop_isolation(false)]
pub fn clone_json_vec(xs: &Vec<JsonValue>) -> (r: Vec<JsonValue>)
    ensures
        jv_seq(r@) == jv_seq(xs@),
{
    let mut out: Vec<JsonValue> = Vec::new();
    let n = xs.len();
    for i in 0..n
        invariant
            n == xs@.len(),
            out@.len() == i,
            forall|k: int| 0 <= k < i ==> jv(#[trigger] out@[k]) == jv(xs@[k]),
    {
        out.push(xs[i].clone());
    }
    proof {
        broadcast use lemma_jv_seq_len;

        assert(jv_seq(out@) =~= jv_seq(xs@));
    }
    out
}

// ---------------------------------------------------------------------
// Parsing: the inverse direction, from wire text to a document.
//
// The grammar is standard JSON. Parsing is defined by the spec
// functions below — a deterministic recursive descent over the
// character sequence — and the executable parser is proved to return
// exactly what they define. A fuel argument bounds the recursion; the
// top-level entry supplies one unit per input character plus one, which
// the descent can never exhaust, since every step that spends fuel
// first consumes at least one character.
//
// Where an object repeats a key, every binding is kept in order and
// readers take the first one.
// ---------------------------------------------------------------------

/// Outcome of parsing one value: the document and the index after it.
pub ghost enum PR {
    Bad,
    Parsed { v: JsonV, next: int },
}

/// Outcome of parsing a string body.
pub ghost enum SPR {
    Bad,
    Parsed { t: Seq<char>, next: int },
}

pub open spec fn spr_t(r: SPR) -> Seq<char> {
    match r {
        SPR::Parsed { t, next } => t,
        SPR::Bad => Seq::empty(),
    }
}

pub open spec fn spr_next(r: SPR) -> int {
    match r {
        SPR::Parsed { t, next } => next,
        SPR::Bad => 0,
    }
}

/// Outcome of parsing the elements of an array.
pub ghost enum APR {
    Bad,
    Parsed { xs: Seq<JsonV>, next: int },
}

/// Outcome of parsing the members of an object.
pub ghost enum OPR {
    Bad,
    Parsed { fs: Seq<(Seq<char>, JsonV)>, next: int },
}

pub open spec fn is_ws(c: char) -> bool {
    c == ' ' || c == '\t' || c == '\n' || c == '\r'
}

/// The first index at or after `i` holding a non-whitespace character.
pub open spec fn skip_ws(s: Seq<char>, i: int) -> int
    decreases s.len() - i,
{
    if 0 <= i && i < s.len() && is_ws(s[i]) {
        skip_ws(s, i + 1)
    } else {
        i
    }
}

pub open spec fn is_digit(c: char) -> bool {
    '0' <= c && c <= '9'
}

pub open spec fn digit_val(c: char) -> int {
    c as int - '0' as int
}

/// The first index at or after `i` holding a non-digit character.
pub open spec fn digits_end(s: Seq<char>, i: int) -> int
    decreases s.len() - i,
{
    if 0 <= i && i < s.len() && is_digit(s[i]) {
        digits_end(s, i + 1)
    } else {
        i
    }
}

/// The value of the digit run from `i` (inclusive) to `j` (exclusive).
pub open spec fn digits_val(s: Seq<char>, i: int, j: int) -> int
    decreases j - i,
{
    if i >= j {
        0
    } else {
        digits_val(s, i, j - 1) * 10 + digit_val(s[j - 1])
    }
}

pub open spec fn hex_val(c: char) -> int {
    if '0' <= c && c <= '9' {
        c as int - '0' as int
    } else if 'a' <= c && c <= 'f' {
        c as int - 'a' as int + 10
    } else if 'A' <= c && c <= 'F' {
        c as int - 'A' as int + 10
    } else {
        -1
    }
}

/// The value of four hexadecimal digits at `i`, or -1.
pub open spec fn hex4(s: Seq<char>, i: int) -> int {
    if i + 4 <= s.len() && hex_val(s[i]) >= 0 && hex_val(s[i + 1]) >= 0 && hex_val(s[i + 2]) >= 0
        && hex_val(s[i + 3]) >= 0 {
        ((hex_val(s[i]) * 16 + hex_val(s[i + 1])) * 16 + hex_val(s[i + 2])) * 16 + hex_val(
            s[i + 3],
        )
    } else {
        -1
    }
}

/// The scalar value of a character.
pub open spec fn char_code(c: char) -> int {
    c as int
}

/// The character with a given scalar value.
pub open spec fn char_of(n: int) -> char {
    choose|c: char| char_code(c) == n
}

/// Whether a scalar value denotes a character.
pub open spec fn is_scalar(n: int) -> bool {
    (0 <= n && n < 0xD800) || (0xE000 <= n && n <= 0x10FFFF)
}

/// Parses a string body starting after the opening quote: plain
/// characters and the JSON escapes, with surrogate pairs combined.
pub open spec fn sp_string(s: Seq<char>, i: int) -> SPR
    decreases s.len() - i,
{
    if i < 0 || i >= s.len() {
        SPR::Bad
    } else if s[i] == '"' {
        SPR::Parsed { t: Seq::empty(), next: i + 1 }
    } else if s[i] == '\\' {
        if i + 1 >= s.len() {
            SPR::Bad
        } else {
            let e = s[i + 1];
            if e == '"' || e == '\\' || e == '/' {
                sp_string_cons(e, sp_string(s, i + 2))
            } else if e == 'b' {
                sp_string_cons(char_of(8), sp_string(s, i + 2))
            } else if e == 'f' {
                sp_string_cons(char_of(12), sp_string(s, i + 2))
            } else if e == 'n' {
                sp_string_cons('\n', sp_string(s, i + 2))
            } else if e == 'r' {
                sp_string_cons('\r', sp_string(s, i + 2))
            } else if e == 't' {
                sp_string_cons('\t', sp_string(s, i + 2))
            } else if e == 'u' {
                let h = hex4(s, i + 2);
                if h < 0 {
                    SPR::Bad
                } else if 0xD800 <= h && h <= 0xDBFF {
                    if i + 7 < s.len() && s[i + 6] == '\\' && s[i + 7] == 'u' {
                        let lo = hex4(s, i + 8);
                        if 0xDC00 <= lo && lo <= 0xDFFF {
                            sp_string_cons(
                                char_of(0x10000 + (h - 0xD800) * 0x400 + (lo - 0xDC00)),
                                sp_string(s, i + 12),
                            )
                        } else {
                            SPR::Bad
                        }
                    } else {
                        SPR::Bad
                    }
                } else if 0xDC00 <= h && h <= 0xDFFF {
                    SPR::Bad
                } else {
                    sp_string_cons(char_of(h), sp_string(s, i + 6))
                }
            } else {
                SPR::Bad
            }
        }
    } else if (s[i] as u32) < 0x20 {
        SPR::Bad
    } else {
        sp_string_cons(s[i], sp_string(s, i + 1))
    }
}

pub open spec fn sp_string_cons(c: char, rest: SPR) -> SPR {
    match rest {
        SPR::Parsed { t, next } => SPR::Parsed { t: seq![c] + t, next },
        SPR::Bad => SPR::Bad,
    }
}

/// Parses a number starting at `i` (a minus sign or a digit): an
/// integral value in signed 64-bit range reads as `Int`, any other
/// well-formed number keeps its raw text as `Num`.
pub open spec fn sp_number(s: Seq<char>, i: int) -> PR {
    let d = if i < s.len() && s[i] == '-' {
        i + 1
    } else {
        i
    };
    if d >= s.len() || !is_digit(s[d]) {
        PR::Bad
    } else {
        let int_end = if s[d] == '0' {
            d + 1
        } else {
            digits_end(s, d)
        };
        let frac_end = if int_end < s.len() && s[int_end] == '.' {
            if digits_end(s, int_end + 1) == int_end + 1 {
                -1
            } else {
                digits_end(s, int_end + 1)
            }
        } else {
            int_end
        };
        if frac_end < 0 {
            PR::Bad
        } else {
            let exp_end = if frac_end < s.len() && (s[frac_end] == 'e' || s[frac_end] == 'E') {
                let es = if frac_end + 1 < s.len() && (s[frac_end + 1] == '+' || s[frac_end + 1]
                    == '-') {
                    frac_end + 2
                } else {
                    frac_end + 1
                };
                if digits_end(s, es) == es {
                    -1
                } else {
                    digits_end(s, es)
                }
            } else {
                frac_end
            };
            if exp_end < 0 {
                PR::Bad
            } else if exp_end == int_end {
                let mag = digits_val(s, d, int_end);
                let val = if d == i {
                    mag
                } else {
                    -mag
                };
                if -0x8000_0000_0000_0000 <= val && val <= 0x7fff_ffff_ffff_ffff {
                    PR::Parsed { v: JsonV::Int(val as i64), next: int_end }
                } else {
                    PR::Parsed { v: JsonV::Num(s.subrange(i, int_end)), next: int_end }
                }
            } else {
                PR::Parsed { v: JsonV::Num(s.subrange(i, exp_end)), next: exp_end }
            }
        }
    }
}

/// Parses one value, leading whitespace included.
pub open spec fn sp_value(s: Seq<char>, i: int, fuel: nat) -> PR
    decreases fuel,
{
    if fuel == 0 {
        PR::Bad
    } else {
        let j = skip_ws(s, i);
        if j >= s.len() {
            PR::Bad
        } else if s[j] == 'n' {
            if j + 4 <= s.len() && s[j + 1] == 'u' && s[j + 2] == 'l' && s[j + 3] == 'l' {
                PR::Parsed { v: JsonV::Null, next: j + 4 }
            } else {
                PR::Bad
            }
        } else if s[j] == 't' {
            if j + 4 <= s.len() && s[j + 1] == 'r' && s[j + 2] == 'u' && s[j + 3] == 'e' {
                PR::Parsed { v: JsonV::Bool(true), next: j + 4 }
            } else {
                PR::Bad
            }
        } else if s[j] == 'f' {
            if j + 5 <= s.len() && s[j + 1] == 'a' && s[j + 2] == 'l' && s[j + 3] == 's' && s[j + 4]
                == 'e' {
                PR::Parsed { v: JsonV::Bool(false), next: j + 5 }
            } else {
                PR::Bad
            }
        } else if s[j] == '"' {
            match sp_string(s, j + 1) {
                SPR::Parsed { t, next } => PR::Parsed { v: JsonV::Str(t), next },
                SPR::Bad => PR::Bad,
            }
        } else if s[j] == '[' {
            let k = skip_ws(s, j + 1);
            if k < s.len() && s[k] == ']' {
                PR::Parsed { v: JsonV::Arr(Seq::empty()), next: k + 1 }
            } else {
                match sp_elems(s, j + 1, (fuel - 1) as nat) {
                    APR::Parsed { xs, next } => PR::Parsed { v: JsonV::Arr(xs), next },
                    APR::Bad => PR::Bad,
                }
            }
        } else if s[j] == '{' {
            let k = skip_ws(s, j + 1);
            if k < s.len() && s[k] == '}' {
                PR::Parsed { v: JsonV::Obj(Seq::empty()), next: k + 1 }
            } else {
                match sp_members(s, j + 1, (fuel - 1) as nat) {
                    OPR::Parsed { fs, next } => PR::Parsed { v: JsonV::Obj(fs), next },
                    OPR::Bad => PR::Bad,
                }
            }
        } else if s[j] == '-' || is_digit(s[j]) {
            sp_number(s, j)
        } else {
            PR::Bad
        }
    }
}

/// Parses one or more comma-separated elements, then the closing
/// bracket.
pub open spec fn sp_elems(s: Seq<char>, i: int, fuel: nat) -> APR
    decreases fuel,
{
    if fuel == 0 {
        APR::Bad
    } else {
        match sp_value(s, i, (fuel - 1) as nat) {
            PR::Parsed { v, next } => {
                let k = skip_ws(s, next);
                if k < s.len() && s[k] == ',' {
                    match sp_elems(s, k + 1, (fuel - 1) as nat) {
                        APR::Parsed { xs, next: m } => APR::Parsed { xs: seq![v] + xs, next: m },
                        APR::Bad => APR::Bad,
                    }
                } else if k < s.len() && s[k] == ']' {
                    APR::Parsed { xs: seq![v], next: k + 1 }
                } else {
                    APR::Bad
                }
            },
            PR::Bad => APR::Bad,
        }
    }
}

/// Parses one or more members, then the closing brace.
pub open spec fn sp_members(s: Seq<char>, i: int, fuel: nat) -> OPR
    decreases fuel,
{
    if fuel == 0 {
        OPR::Bad
    } else {
        let j = skip_ws(s, i);
        if j < s.len() && s[j] == '"' {
            match sp_string(s, j + 1) {
                SPR::Parsed { t: key, next } => {
                    let c = skip_ws(s, next);
                    if c < s.len() && s[c] == ':' {
                        match sp_value(s, c + 1, (fuel - 1) as nat) {
                            PR::Parsed { v, next: n } => {
                                let k = skip_ws(s, n);
                                if k < s.len() && s[k] == ',' {
                                    match sp_members(s, k + 1, (fuel - 1) as nat) {
                                        OPR::Parsed { fs, next: m } => OPR::Parsed {
                                            fs: seq![(key, v)] + fs,
                                            next: m,
                                        },
                                        OPR::Bad => OPR::Bad,
                                    }
                                } else if k < s.len() && s[k] == '}' {
                                    OPR::Parsed { fs: seq![(key, v)], next: k + 1 }
                                } else {
                                    OPR::Bad
                                }
                            },
                            PR::Bad => OPR::Bad,
                        }
                    } else {
                        OPR::Bad
                    }
                },
                SPR::Bad => OPR::Bad,
            }
        } else {
            OPR::Bad
        }
    }
}

/// The document a complete text denotes, if any: one value with only
/// whitespace around it.
pub open spec fn sp_parse(s: Seq<char>) -> Option<JsonV> {
    if s.len() >= usize::MAX {
        None
    } else {
    match sp_value(s, 0, (s.len() + 1) as nat) {
        PR::Parsed { v, next } => if skip_ws(s, next) == s.len() {
            Some(v)
        } else {
            None
        },
        PR::Bad => None,
    }
    }
}

pub open spec fn pow10(n: nat) -> int
    decreases n,
{
    if n == 0 {
        1
    } else {
        10 * pow10((n - 1) as nat)
    }
}

proof fn lemma_pow10_mono(a: nat, b: nat)
    requires
        a <= b,
    ensures
        1 <= pow10(a) <= pow10(b),
    decreases b,
{
    if b > 0 {
        if a == b {
            lemma_pow10_mono((a - 1) as nat, (b - 1) as nat);
        } else {
            lemma_pow10_mono(a, (b - 1) as nat);
        }
    }
}

proof fn lemma_pow10_18_19()
    ensures
        pow10(18) == 1000000000000000000,
        pow10(19) == 10000000000000000000,
{
    assert(pow10(0) == 1);
    assert(pow10(1) == 10);
    assert(pow10(2) == 100);
    assert(pow10(3) == 1000);
    assert(pow10(4) == 10000);
    assert(pow10(5) == 100000);
    assert(pow10(6) == 1000000);
    assert(pow10(7) == 10000000);
    assert(pow10(8) == 100000000);
    assert(pow10(9) == 1000000000);
    assert(pow10(10) == 10000000000);
    assert(pow10(11) == 100000000000);
    assert(pow10(12) == 1000000000000);
    assert(pow10(13) == 10000000000000);
    assert(pow10(14) == 100000000000000);
    assert(pow10(15) == 1000000000000000);
    assert(pow10(16) == 10000000000000000);
    assert(pow10(17) == 100000000000000000);
    assert(pow10(18) == 1000000000000000000);
    assert(pow10(19) == 10000000000000000000);
}

proof fn lemma_digits_val_bounds(s: Seq<char>, i: int, j: int)
    requires
        i <= j,
        forall|k: int| i <= k < j ==> is_digit(s[k]),
    ensures
        0 <= digits_val(s, i, j) < pow10((j - i) as nat),
    decreases j - i,
{
    if i < j {
        lemma_digits_val_bounds(s, i, j - 1);
    }
}

proof fn lemma_digits_val_lower(s: Seq<char>, i: int, j: int)
    requires
        i < j,
        forall|k: int| i <= k < j ==> is_digit(s[k]),
        digit_val(s[i]) >= 1,
    ensures
        digits_val(s, i, j) >= pow10((j - i - 1) as nat),
    decreases j - i,
{
    assert(pow10(0) == 1);
    if i < j - 1 {
        lemma_digits_val_lower(s, i, j - 1);
        lemma_pow10_mono(0, (j - i - 2) as nat);
        assert(is_digit(s[j - 1]));
        assert(digit_val(s[j - 1]) >= 0);
        assert(digits_val(s, i, j) == digits_val(s, i, j - 1) * 10 + digit_val(s[j - 1]));
        assert(pow10((j - i - 1) as nat) == 10 * pow10((j - i - 2) as nat));
        let a = digits_val(s, i, j - 1);
        let b = pow10((j - i - 2) as nat);
        assert(a * 10 >= b * 10) by (nonlinear_arith)
            requires
                a >= b,
        ;
    } else {
        assert(digits_val(s, i, j) == digits_val(s, i, i) * 10 + digit_val(s[i]));
        assert(digits_val(s, i, i) == 0);
    }
}

proof fn lemma_digits_end_props(s: Seq<char>, i: int)
    requires
        0 <= i <= s.len(),
    ensures
        i <= digits_end(s, i) <= s.len(),
        forall|k: int| i <= k < digits_end(s, i) ==> is_digit(s[k]),
        digits_end(s, i) < s.len() ==> !is_digit(s[digits_end(s, i)]),
    decreases s.len() - i,
{
    if i < s.len() && is_digit(s[i]) {
        lemma_digits_end_props(s, i + 1);
    }
}

/// Relies on char::from_u32: a character for every Unicode scalar
/// value, nothing for surrogates or values beyond the last code point.
#[verifier::external_body]
fn exec_char_from_u32(n: u32) -> (r: Option<char>)
    ensures
        (r is Some) == is_scalar(n as int),
        r matches Some(c) ==> c as int == n as int,
{
    char::from_u32(n)
}

fn exec_is_ws(c: char) -> (r: bool)
    ensures
        r == is_ws(c),
{
    c == ' ' || c == '\t' || c == '\n' || c == '\r'
}

fn exec_is_digit(c: char) -> (r: bool)
    ensures
        r == is_digit(c),
{
    '0' <= c && c <= '9'
}

fn p_ws(s: &Vec<char>, i: usize) -> (j: usize)
    requires
        i <= s@.len(),
    ensures
        j as int == skip_ws(s@, i as int),
        i <= j <= s@.len(),
{
    let mut j = i;
    loop
        invariant
            i <= j <= s@.len(),
            skip_ws(s@, i as int) == skip_ws(s@, j as int),
        decreases s@.len() - j,
    {
        if j < s.len() && exec_is_ws(s[j]) {
            j = j + 1;
        } else {
            return j;
        }
    }
}

fn p_digits_end(s: &Vec<char>, i: usize) -> (j: usize)
    requires
        i <= s@.len(),
    ensures
        j as int == digits_end(s@, i as int),
        i <= j <= s@.len(),
{
    let mut j = i;
    loop
        invariant
            i <= j <= s@.len(),
            digits_end(s@, i as int) == digits_end(s@, j as int),
        decreases s@.len() - j,
    {
        if j < s.len() && exec_is_digit(s[j]) {
            j = j + 1;
        } else {
            return j;
        }
    }
}

fn exec_hex_val(c: char) -> (r: i32)
    ensures
        r as int == hex_val(c),
{
    if '0' <= c && c <= '9' {
        (c as u32 - '0' as u32) as i32
    } else if 'a' <= c && c <= 'f' {
        (c as u32 - 'a' as u32) as i32 + 10
    } else if 'A' <= c && c <= 'F' {
        (c as u32 - 'A' as u32) as i32 + 10
    } else {
        -1
    }
}

fn p_hex4(s: &Vec<char>, i: usize) -> (r: Option<u32>)
    requires
        i <= s@.len(),
    ensures
        (r is None) == (hex4(s@, i as int) < 0),
        r matches Some(h) ==> h as int == hex4(s@, i as int) && h <= 0xFFFF,
{
    if s.len() - i < 4 {
        return None;
    }
    let a = exec_hex_val(s[i]);
    let b = exec_hex_val(s[i + 1]);
    let c = exec_hex_val(s[i + 2]);
    let d = exec_hex_val(s[i + 3]);
    if a < 0 || b < 0 || c < 0 || d < 0 {
        return None;
    }
    Some((((a as u32 * 16) + b as u32) * 16 + c as u32) * 16 + d as u32)
}

/// The chosen character for a scalar value is the one with that value.
proof fn lemma_char_of(c: char)
    ensures
        char_of(c as int) == c,
{
    assert(char_code(c) == c as int);
    let w = char_of(c as int);
    assert(char_code(w) == c as int);
}

fn chars_sub(s: &Vec<char>, i: usize, j: usize) -> (r: String)
    requires
        i <= j <= s@.len(),
    ensures
        r@ == s@.subrange(i as int, j as int),
{
    let mut out: Vec<char> = Vec::new();
    let mut k = i;
    while k < j
        invariant
            i <= k <= j <= s@.len(),
            out@ == s@.subrange(i as int, k as int),
        decreases j - k,
    {
        out.push(s[k]);
        proof {
            assert(out@ =~= s@.subrange(i as int, k + 1));
        }
        k = k + 1;
    }
    chars_string(&out)
}

#[verifier::loop_isolation(false)]
#[verifier::rlimit(100)]
fn p_string(s: &Vec<char>, i: usize) -> (r: Option<(String, usize)>)
    requires
        i <= s@.len(),
    ensures
        (r is None) == (sp_string(s@, i as int) is Bad),
        r matches Some((t, j)) ==> sp_string(s@, i as int) == (SPR::Parsed {
            t: t@,
            next: j as int,
        }) && i < j <= s@.len(),
{
    let mut cur = i;
    let mut acc: Vec<char> = Vec::new();
    proof {
        match sp_string(s@, i as int) {
            SPR::Parsed { t, next } => {
                assert(Seq::<char>::empty() + t =~= t);
            },
            SPR::Bad => {},
        }
    }
    loop
        invariant
            i <= cur <= s@.len(),
            (sp_string(s@, cur as int) is Bad) ==> (sp_string(s@, i as int) is Bad),
            (sp_string(s@, cur as int) is Parsed) ==> sp_string(s@, i as int) == (SPR::Parsed {
                t: acc@ + spr_t(sp_string(s@, cur as int)),
                next: spr_next(sp_string(s@, cur as int)),
            }),
        decreases s@.len() - cur,
    {
        if cur >= s.len() {
            return None;
        }
        let c = s[cur];
        if c == '"' {
            proof {
                assert(acc@ + Seq::<char>::empty() =~= acc@);
            }
            let t = chars_string(&acc);
            return Some((t, cur + 1));
        } else if c == '\\' {
            if s.len() - cur < 2 {
                return None;
            }
            let e = s[cur + 1];
            let ghost pre = cur as int;
            let ghost prev = acc@;
            if e == '"' || e == '\\' || e == '/' {
                acc.push(e);
                cur = cur + 2;
            } else if e == 'b' {
                acc.push('\u{8}');
                proof {
                    lemma_char_of('\u{8}');
                }
                cur = cur + 2;
            } else if e == 'f' {
                acc.push('\u{c}');
                proof {
                    lemma_char_of('\u{c}');
                }
                cur = cur + 2;
            } else if e == 'n' {
                acc.push('\n');
                cur = cur + 2;
            } else if e == 'r' {
                acc.push('\r');
                cur = cur + 2;
            } else if e == 't' {
                acc.push('\t');
                cur = cur + 2;
            } else if e == 'u' {
                let h = match p_hex4(s, cur + 2) {
                    Some(h) => h,
                    None => {
                        return None;
                    },
                };
                if 0xD800 <= h && h <= 0xDBFF {
                    if s.len() - cur <= 7 || !(s[cur + 6] == '\\' && s[cur + 7] == 'u') {
                        return None;
                    }
                    let lo = match p_hex4(s, cur + 8) {
                        Some(lo) => lo,
                        None => {
                            return None;
                        },
                    };
                    if !(0xDC00 <= lo && lo <= 0xDFFF) {
                        return None;
                    }
                    let code: u32 = 0x10000 + (h - 0xD800) * 0x400 + (lo - 0xDC00);
                    let ch = match exec_char_from_u32(code) {
                        Some(ch) => ch,
                        None => {
                            return None;
                        },
                    };
                    acc.push(ch);
                    proof {
                        lemma_char_of(ch);
                    }
                    cur = cur + 12;
                } else if 0xDC00 <= h && h <= 0xDFFF {
                    return None;
                } else {
                    let ch = match exec_char_from_u32(h) {
                        Some(ch) => ch,
                        None => {
                            return None;
                        },
                    };
                    acc.push(ch);
                    proof {
                        lemma_char_of(ch);
                    }
                    cur = cur + 6;
                }
            } else {
                return None;
            }
            proof {
                assert(s@[pre] == '\\');
                assert(s@[pre + 1] == e);
                assert(acc@ == prev.push(acc@.last()));
                match sp_string(s@, cur as int) {
                    SPR::Parsed { t, next } => {
                        assert(prev + (seq![acc@.last()] + t) =~= acc@ + t);
                    },
                    SPR::Bad => {},
                }
            }
        } else if (c as u32) < 0x20 {
            return None;
        } else {
            let ghost prev = acc@;
            acc.push(c);
            cur = cur + 1;
            proof {
                match sp_string(s@, cur as int) {
                    SPR::Parsed { t, next } => {
                        assert(prev + (seq![c] + t) =~= acc@ + t);
                    },
                    SPR::Bad => {},
                }
            }
        }
    }
}

#[verifier::loop_isolation(false)]
#[verifier::rlimit(100)]
fn p_number(s: &Vec<char>, i: usize) -> (r: Option<(JsonValue, usize)>)
    requires
        i < s@.len(),
    ensures
        (r is None) == (sp_number(s@, i as int) is Bad),
        r matches Some((v, j)) ==> sp_number(s@, i as int) == (PR::Parsed {
            v: v@,
            next: j as int,
        }) && i < j <= s@.len(),
{
    let slen = s.len();
    let neg = s[i] == '-';
    let d = if neg {
        i + 1
    } else {
        i
    };
    if d >= s.len() || !exec_is_digit(s[d]) {
        return None;
    }
    let int_end: usize = if s[d] == '0' {
        d + 1
    } else {
        proof {
            lemma_digits_end_props(s@, d as int);
        }
        p_digits_end(s, d)
    };
    proof {
        lemma_digits_end_props(s@, d as int);
    }
    let frac_end: usize = if int_end < s.len() && s[int_end] == '.' {
        proof {
            lemma_digits_end_props(s@, int_end + 1);
        }
        let fe = p_digits_end(s, int_end + 1);
        if fe == int_end + 1 {
            return None;
        }
        fe
    } else {
        int_end
    };
    let exp_end: usize = if frac_end < s.len() && (s[frac_end] == 'e' || s[frac_end] == 'E') {
        let es: usize = if frac_end + 1 < s.len() && (s[frac_end + 1] == '+' || s[frac_end + 1]
            == '-') {
            frac_end + 2
        } else {
            frac_end + 1
        };
        proof {
            lemma_digits_end_props(s@, es as int);
        }
        let ee = p_digits_end(s, es);
        if ee == es {
            return None;
        }
        ee
    } else {
        frac_end
    };
    if exp_end != int_end {
        let raw = chars_sub(s, i, exp_end);
        return Some((JsonValue::Num(raw), exp_end));
    }
    // Integral: the digit run is s[d .. int_end].
    let count = int_end - d;
    if count > 19 {
        proof {
            lemma_digits_end_props(s@, d as int);
            lemma_digits_val_lower(s@, d as int, int_end as int);
            lemma_pow10_18_19();
            lemma_pow10_mono(19, (int_end - d - 1) as nat);
        }
        let raw = chars_sub(s, i, int_end);
        return Some((JsonValue::Num(raw), int_end));
    }
    let mut acc: u64 = 0;
    let mut k = d;
    while k < int_end
        invariant
            d <= k <= int_end <= s@.len(),
            int_end - d <= 19,
            forall|m: int| d <= m < int_end ==> is_digit(s@[m]),
            acc == digits_val(s@, d as int, k as int),
        decreases int_end - k,
    {
        proof {
            lemma_digits_val_bounds(s@, d as int, k as int);
            lemma_pow10_mono((k - d) as nat, 18);
            lemma_pow10_18_19();
        }
        let dv = (s[k] as u32 - '0' as u32) as u64;
        acc = acc * 10 + dv;
        k = k + 1;
    }
    if neg {
        if acc > 9223372036854775808u64 {
            let raw = chars_sub(s, i, int_end);
            Some((JsonValue::Num(raw), int_end))
        } else {
            let v: i64 = if acc == 9223372036854775808u64 {
                -9223372036854775807i64 - 1
            } else {
                -(acc as i64)
            };
            Some((JsonValue::Int(v), int_end))
        }
    } else {
        if acc > 9223372036854775807u64 {
            let raw = chars_sub(s, i, int_end);
            Some((JsonValue::Num(raw), int_end))
        } else {
            Some((JsonValue::Int(acc as i64), int_end))
        }
    }
}

/// Parses one value of the document grammar.
#[verifier::loop_isolation(false)]
#[verifier::rlimit(100)]
fn p_value(s: &Vec<char>, i: usize, fuel: usize) -> (r: Option<(JsonValue, usize)>)
    requires
        i <= s@.len(),
    ensures
        (r is None) == (sp_value(s@, i as int, fuel as nat) is Bad),
        r matches Some((v, j)) ==> sp_value(s@, i as int, fuel as nat) == (PR::Parsed {
            v: v@,
            next: j as int,
        }) && j <= s@.len(),
    decreases fuel,
{
    if fuel == 0 {
        return None;
    }
    let j = p_ws(s, i);
    if j >= s.len() {
        return None;
    }
    let c = s[j];
    if c == 'n' {
        if s.len() - j >= 4 && s[j + 1] == 'u' && s[j + 2] == 'l' && s[j + 3] == 'l' {
            Some((JsonValue::Null, j + 4))
        } else {
            None
        }
    } else if c == 't' {
        if s.len() - j >= 4 && s[j + 1] == 'r' && s[j + 2] == 'u' && s[j + 3] == 'e' {
            Some((JsonValue::Bool(true), j + 4))
        } else {
            None
        }
    } else if c == 'f' {
        if s.len() - j >= 5 && s[j + 1] == 'a' && s[j + 2] == 'l' && s[j + 3] == 's' && s[j + 4]
            == 'e' {
            Some((JsonValue::Bool(false), j + 5))
        } else {
            None
        }
    } else if c == '"' {
        match p_string(s, j + 1) {
            Some((t, n)) => Some((JsonValue::Str(t), n)),
            None => None,
        }
    } else if c == '[' {
        let k = p_ws(s, j + 1);
        if k < s.len() && s[k] == ']' {
            let out: Vec<JsonValue> = Vec::new();
            proof {
                assert(jv_seq(out@) =~= Seq::<JsonV>::empty());
            }
            Some((JsonValue::Arr(out), k + 1))
        } else {
            match p_elems(s, j + 1, fuel - 1) {
                Some((xs, n)) => Some((JsonValue::Arr(xs), n)),
                None => None,
            }
        }
    } else if c == '{' {
        let k = p_ws(s, j + 1);
        if k < s.len() && s[k] == '}' {
            let out: Vec<(String, JsonValue)> = Vec::new();
            proof {
                assert(jv_fields(out@) =~= Seq::<(Seq<char>, JsonV)>::empty());
            }
            Some((JsonValue::Obj(out), k + 1))
        } else {
            match p_members(s, j + 1, fuel - 1) {
                Some((fs, n)) => Some((JsonValue::Obj(fs), n)),
                None => None,
            }
        }
    } else if c == '-' || exec_is_digit(c) {
        p_number(s, j)
    } else {
        None
    }
}

/// Parses the elements of a non-empty array, closing bracket included.
#[verifier::loop_isolation(false)]
#[verifier::rlimit(100)]
fn p_elems(s: &Vec<char>, i: usize, fuel: usize) -> (r: Option<(Vec<JsonValue>, usize)>)
    requires
        i <= s@.len(),
    ensures
        (r is None) == (sp_elems(s@, i as int, fuel as nat) is Bad),
        r matches Some((xs, j)) ==> sp_elems(s@, i as int, fuel as nat) == (APR::Parsed {
            xs: jv_seq(xs@),
            next: j as int,
        }) && j <= s@.len(),
    decreases fuel,
{
    if fuel == 0 {
        return None;
    }
    let (v, n) = match p_value(s, i, fuel - 1) {
        Some(x) => x,
        None => {
            return None;
        },
    };
    let k = p_ws(s, n);
    if k < s.len() && s[k] == ',' {
        let (mut xs, m) = match p_elems(s, k + 1, fuel - 1) {
            Some(x) => x,
            None => {
                return None;
            },
        };
        let ghost rest = xs@;
        xs.insert(0, v);
        proof {
            broadcast use lemma_jv_seq_len;

            assert(jv_seq(xs@) =~= seq![jv(v)] + jv_seq(rest));
        }
        Some((xs, m))
    } else if k < s.len() && s[k] == ']' {
        let mut xs: Vec<JsonValue> = Vec::new();
        xs.push(v);
        proof {
            broadcast use lemma_jv_seq_len;

            assert(jv_seq(xs@) =~= seq![jv(v)]);
        }
        Some((xs, k + 1))
    } else {
        None
    }
}

/// Parses the members of a non-empty object, closing brace included.
#[verifier::loop_isolation(false)]
#[verifier::rlimit(100)]
fn p_members(s: &Vec<char>, i: usize, fuel: usize) -> (r: Option<
    (Vec<(String, JsonValue)>, usize),
>)
    requires
        i <= s@.len(),
    ensures
        (r is None) == (sp_members(s@, i as int, fuel as nat) is Bad),
        r matches Some((fs, j)) ==> sp_members(s@, i as int, fuel as nat) == (OPR::Parsed {
            fs: jv_fields(fs@),
            next: j as int,
        }) && j <= s@.len(),
    decreases fuel,
{
    if fuel == 0 {
        return None;
    }
    let j = p_ws(s, i);
    if !(j < s.len() && s[j] == '"') {
        return None;
    }
    let (key, n) = match p_string(s, j + 1) {
        Some(x) => x,
        None => {
            return None;
        },
    };
    let c = p_ws(s, n);
    if !(c < s.len() && s[c] == ':') {
        return None;
    }
    let (v, n2) = match p_value(s, c + 1, fuel - 1) {
        Some(x) => x,
        None => {
            return None;
        },
    };
    let k = p_ws(s, n2);
    if k < s.len() && s[k] == ',' {
        let (mut fs, m) = match p_members(s, k + 1, fuel - 1) {
            Some(x) => x,
            None => {
                return None;
            },
        };
        let ghost rest = fs@;
        fs.insert(0, (key, v));
        proof {
            broadcast use lemma_jv_fields_len;

            assert(jv_fields(fs@) =~= seq![(key@, jv(v))] + jv_fields(rest));
        }
        Some((fs, m))
    } else if k < s.len() && s[k] == '}' {
        let mut fs: Vec<(String, JsonValue)> = Vec::new();
        fs.push((key, v));
        proof {
            broadcast use lemma_jv_fields_len;

            assert(jv_fields(fs@) =~= seq![(key@, jv(v))]);
        }
        Some((fs, k + 1))
    } else {
        None
    }
}

/// Parses a complete document: one value with only whitespace around
/// it.
pub fn parse_json_chars(s: &Vec<char>) -> (r: Option<JsonValue>)
    ensures
        (r is Some) == (sp_parse(s@) is Some),
        r matches Some(v) ==> sp_parse(s@) == Some(v@),
{
    if s.len() >= usize::MAX {
        return None;
    }
    match p_value(s, 0, s.len() + 1) {
        Some((v, j)) => {
            let k = p_ws(s, j);
            if k == s.len() {
                Some(v)
            } else {
                None
            }
        },
        None => None,
    }
}

/// Parses a complete document from a string.
pub fn parse_json_str(s: &str) -> (r: Option<JsonValue>)
    ensures
        (r is Some) == (sp_parse(s@) is Some),
        r matches Some(v) ==> sp_parse(s@) == Some(v@),
{
    let cs = str_chars(s);
    parse_json_chars(&cs)
}

} // verus!
