//! JSON values as the library models them, together with the compact
//! rendering that the wire format uses.
//!
//! A `JsonValue` holds what the protocol reads and writes: null, booleans,
//! numbers (64-bit signed integers, or any other number as its decimal
//! text), strings, arrays and objects (ordered lists of key/value pairs).
//! Its mathematical shape is a `JVal`, where strings are sequences of
//! characters; contracts throughout the crate speak of `JVal`s.

use vstd::prelude::*;
use vstd::string::StrSliceExecFns;
use vstd::string::StringExecFns;

verus! {

/// A JSON value.
///
/// Integers the protocol inspects are held as `Int`.  Any other JSON
/// number — fractional, or beyond the 64-bit signed range — is carried
/// opaquely as `Num`, the number's decimal text exactly as it stood on
/// the wire; the renderer writes that text back verbatim, and no
/// arithmetic ever touches it.
#[derive(Debug)]
pub enum JsonValue {
    Null,
    Bool(bool),
    Int(i64),
    Num(String),
    Str(String),
    Array(Vec<JsonValue>),
    Object(Vec<(String, JsonValue)>),
}

/// The mathematical shape of a `JsonValue`.  Two values with equal `JVal`s
/// are interchangeable everywhere the library looks at them.
pub ghost enum JVal {
    Null,
    Bool(bool),
    Int(int),
    Num(Seq<char>),
    Str(Seq<char>),
    Array(Seq<JVal>),
    Object(Seq<(Seq<char>, JVal)>),
}

impl JsonValue {
    /// The mathematical value this `JsonValue` stands for.
    pub open spec fn deep(self) -> JVal
        decreases self, 1int, 0int,
    {
        match self {
            JsonValue::Null => JVal::Null,
            JsonValue::Bool(b) => JVal::Bool(b),
            JsonValue::Int(i) => JVal::Int(i as int),
            JsonValue::Num(s) => JVal::Num(s@),
            JsonValue::Str(s) => JVal::Str(s@),
            JsonValue::Array(items) => JVal::Array(deep_elems(items, items@.len() as int)),
            JsonValue::Object(fields) => JVal::Object(deep_fields(fields, fields@.len() as int)),
        }
    }
}

/// The `JVal`s of the first `n` elements of `items`.
pub open spec fn deep_elems(items: Vec<JsonValue>, n: int) -> Seq<JVal>
    decreases items, 0int, n,
{
    if n <= 0 || n > items@.len() {
        Seq::empty()
    } else {
        deep_elems(items, n - 1).push(items@[n - 1].deep())
    }
}

/// The key views and value `JVal`s of the first `n` fields of `fields`.
pub open spec fn deep_fields(fields: Vec<(String, JsonValue)>, n: int) -> Seq<(Seq<char>, JVal)>
    decreases fields, 0int, n,
{
    if n <= 0 || n > fields@.len() {
        Seq::empty()
    } else {
        deep_fields(fields, n - 1).push((fields@[n - 1].0@, fields@[n - 1].1.deep()))
    }
}

pub proof fn lemma_deep_elems(items: Vec<JsonValue>, n: int)
    requires
        0 <= n <= items@.len(),
    ensures
        deep_elems(items, n).len() == n,
        forall|i: int| 0 <= i < n ==> deep_elems(items, n)[i] == items@[i].deep(),
    decreases n,
{
    if n > 0 {
        lemma_deep_elems(items, n - 1);
    }
}

pub proof fn lemma_deep_fields(fields: Vec<(String, JsonValue)>, n: int)
    requires
        0 <= n <= fields@.len(),
    ensures
        deep_fields(fields, n).len() == n,
        forall|i: int|
            0 <= i < n ==> deep_fields(fields, n)[i] == (fields@[i].0@, fields@[i].1.deep()),
    decreases n,
{
    if n > 0 {
        lemma_deep_fields(fields, n - 1);
    }
}

/// First field of `fields` whose key is `key`, if any.
pub open spec fn jobj_get(fields: Seq<(Seq<char>, JVal)>, key: Seq<char>) -> Option<JVal>
    decreases fields.len(),
{
    if fields.len() == 0 {
        None
    } else if fields[0].0 == key {
        Some(fields[0].1)
    } else {
        jobj_get(fields.drop_first(), key)
    }
}

pub proof fn lemma_jobj_get_at(fields: Seq<(Seq<char>, JVal)>, key: Seq<char>, i: int)
    requires
        0 <= i < fields.len(),
        fields[i].0 == key,
        forall|j: int| 0 <= j < i ==> fields[j].0 != key,
    ensures
        jobj_get(fields, key) == Some(fields[i].1),
    decreases i,
{
    if i > 0 {
        assert(fields[0].0 != key);
        lemma_jobj_get_at(fields.drop_first(), key, i - 1);
    }
}

pub proof fn lemma_jobj_get_absent(fields: Seq<(Seq<char>, JVal)>, key: Seq<char>)
    requires
        forall|j: int| 0 <= j < fields.len() ==> fields[j].0 != key,
    ensures
        jobj_get(fields, key) is None,
    decreases fields.len(),
{
    if fields.len() > 0 {
        lemma_jobj_get_absent(fields.drop_first(), key);
    }
}

/// Index of the first field of `fields` whose key reads as `key`.
pub fn find_field(fields: &Vec<(String, JsonValue)>, key: &String) -> (r: Option<usize>)
    ensures
        match r {
            Some(i) => i < fields@.len() && fields@[i as int].0@ == key@ && (forall|j: int|
                0 <= j < i ==> fields@[j].0@ != key@),
            None => forall|j: int| 0 <= j < fields@.len() ==> fields@[j].0@ != key@,
        },
{
    let n = fields.len();
    let mut i: usize = 0;
    while i < n
        invariant
            i <= n,
            n == fields@.len(),
            forall|j: int| 0 <= j < i ==> fields@[j].0@ != key@,
        decreases n - i,
    {
        if fields[i].0.eq(key) {
            return Some(i);
        }
        i = i + 1;
    }
    None
}

/// The decimal digit character for `d` (0 to 9).
pub open spec fn digit_char(d: int) -> char {
    if d == 0 {
        '0'
    } else if d == 1 {
        '1'
    } else if d == 2 {
        '2'
    } else if d == 3 {
        '3'
    } else if d == 4 {
        '4'
    } else if d == 5 {
        '5'
    } else if d == 6 {
        '6'
    } else if d == 7 {
        '7'
    } else if d == 8 {
        '8'
    } else {
        '9'
    }
}

/// The lower-case hexadecimal digit character for `d` (0 to 15).
pub open spec fn hex_char(d: int) -> char {
    if d < 10 {
        digit_char(d)
    } else if d == 10 {
        'a'
    } else if d == 11 {
        'b'
    } else if d == 12 {
        'c'
    } else if d == 13 {
        'd'
    } else if d == 14 {
        'e'
    } else {
        'f'
    }
}

/// Decimal digits of a non-negative integer, most significant first.
pub open spec fn dec_digits(n: int) -> Seq<char>
    recommends
        n >= 0,
    decreases n,
{
    if n < 10 {
        seq![digit_char(n)]
    } else {
        dec_digits(n / 10).push(digit_char(n % 10))
    }
}

/// Decimal rendering of an integer, with a leading minus sign if negative.
pub open spec fn int_digits(i: int) -> Seq<char> {
    if i < 0 {
        seq!['-'] + dec_digits(-i)
    } else {
        dec_digits(i)
    }
}

/// How one character appears inside a rendered JSON string literal.
pub open spec fn escape_char(c: char) -> Seq<char> {
    if c == '"' {
        seq!['\\', '"']
    } else if c == '\\' {
        seq!['\\', '\\']
    } else if c == '\u{8}' {
        seq!['\\', 'b']
    } else if c == '\u{c}' {
        seq!['\\', 'f']
    } else if c == '\n' {
        seq!['\\', 'n']
    } else if c == '\r' {
        seq!['\\', 'r']
    } else if c == '\t' {
        seq!['\\', 't']
    } else if (c as u32) < 32 {
        seq!['\\', 'u', '0', '0', hex_char((c as u32 / 16) as int), hex_char((c as u32 % 16) as int)]
    } else {
        seq![c]
    }
}

/// A whole string escaped for a JSON string literal.
pub open spec fn escape_string(s: Seq<char>) -> Seq<char>
    decreases s.len(),
{
    if s.len() == 0 {
        Seq::empty()
    } else {
        escape_string(s.drop_last()) + escape_char(s.last())
    }
}

/// Compact rendering of a JSON value: no spaces, object fields in order.
pub open spec fn render(v: JVal) -> Seq<char>
    decreases v, 1int, 0int,
{
    match v {
        JVal::Null => seq!['n', 'u', 'l', 'l'],
        JVal::Bool(b) => if b {
            seq!['t', 'r', 'u', 'e']
        } else {
            seq!['f', 'a', 'l', 's', 'e']
        },
        JVal::Int(i) => int_digits(i),
        JVal::Num(s) => s,
        JVal::Str(s) => seq!['"'] + escape_string(s) + seq!['"'],
        JVal::Array(items) => seq!['['] + render_items(items, items.len() as int) + seq![']'],
        JVal::Object(fields) => seq!['{'] + render_fields(fields, fields.len() as int) + seq!['}'],
    }
}

/// The first `n` array elements rendered with commas between them.
pub open spec fn render_items(items: Seq<JVal>, n: int) -> Seq<char>
    decreases items, 0int, n,
{
    if n <= 0 || n > items.len() {
        Seq::empty()
    } else if n == 1 {
        render(items[0])
    } else {
        render_items(items, n - 1) + seq![','] + render(items[n - 1])
    }
}

/// One rendered object field: quoted escaped key, colon, rendered value.
pub open spec fn render_entry(f: (Seq<char>, JVal)) -> Seq<char>
    decreases f, 0int, 0int,
{
    seq!['"'] + escape_string(f.0) + seq!['"', ':'] + render(f.1)
}

/// The first `n` object fields rendered with commas between them.
pub open spec fn render_fields(fields: Seq<(Seq<char>, JVal)>, n: int) -> Seq<char>
    decreases fields, 0int, n,
{
    if n <= 0 || n > fields.len() {
        Seq::empty()
    } else if n == 1 {
        render_entry(fields[0])
    } else {
        render_fields(fields, n - 1) + seq![','] + render_entry(fields[n - 1])
    }
}

/// Relies on String::push: appends exactly the one given character.
#[verifier::external_body]
pub(crate) fn push_char(out: &mut String, c: char)
    ensures
        final(out)@ == old(out)@.push(c),
{
    out.push(c);
}

/// The decimal digit character for `d`, executable form.
fn digit_char_exec(d: u64) -> (c: char)
    requires
        d < 10,
    ensures
        c == digit_char(d as int),
{
    if d == 0 {
        '0'
    } else if d == 1 {
        '1'
    } else if d == 2 {
        '2'
    } else if d == 3 {
        '3'
    } else if d == 4 {
        '4'
    } else if d == 5 {
        '5'
    } else if d == 6 {
        '6'
    } else if d == 7 {
        '7'
    } else if d == 8 {
        '8'
    } else {
        '9'
    }
}

/// The lower-case hexadecimal digit character for `d`, executable form.
fn hex_char_exec(d: u32) -> (c: char)
    requires
        d < 16,
    ensures
        c == hex_char(d as int),
{
    if d < 10 {
        digit_char_exec(d as u64)
    } else if d == 10 {
        'a'
    } else if d == 11 {
        'b'
    } else if d == 12 {
        'c'
    } else if d == 13 {
        'd'
    } else if d == 14 {
        'e'
    } else {
        'f'
    }
}

fn write_u64_digits(n: u64, out: &mut String)
    ensures
        final(out)@ == old(out)@ + dec_digits(n as int),
    decreases n,
{
    if n < 10 {
        let c = digit_char_exec(n);
        push_char(out, c);
        proof {
            assert(final(out)@ =~= old(out)@ + dec_digits(n as int));
        }
    } else {
        write_u64_digits(n / 10, out);
        let c = digit_char_exec(n % 10);
        push_char(out, c);
        proof {
            assert(final(out)@ =~= old(out)@ + dec_digits(n as int));
        }
    }
}

fn write_int(i: i64, out: &mut String)
    ensures
        final(out)@ == old(out)@ + int_digits(i as int),
{
    if i >= 0 {
        write_u64_digits(i as u64, out);
    } else {
        push_char(out, '-');
        let p: i64 = i + 1;
        let q: i64 = -p;
        let m: u64 = (q as u64) + 1;
        assert(m as int == -(i as int));
        write_u64_digits(m, out);
        proof {
            assert(final(out)@ =~= old(out)@ + int_digits(i as int));
        }
    }
}

fn write_escaped_char(c: char, out: &mut String)
    ensures
        final(out)@ == old(out)@ + escape_char(c),
{
    if c == '"' {
        push_char(out, '\\');
        push_char(out, '"');
    } else if c == '\\' {
        push_char(out, '\\');
        push_char(out, '\\');
    } else if c == '\u{8}' {
        push_char(out, '\\');
        push_char(out, 'b');
    } else if c == '\u{c}' {
        push_char(out, '\\');
        push_char(out, 'f');
    } else if c == '\n' {
        push_char(out, '\\');
        push_char(out, 'n');
    } else if c == '\r' {
        push_char(out, '\\');
        push_char(out, 'r');
    } else if c == '\t' {
        push_char(out, '\\');
        push_char(out, 't');
    } else if (c as u32) < 32 {
        push_char(out, '\\');
        push_char(out, 'u');
        push_char(out, '0');
        push_char(out, '0');
        let hi = hex_char_exec((c as u32) / 16);
        push_char(out, hi);
        let lo = hex_char_exec((c as u32) % 16);
        push_char(out, lo);
    } else {
        push_char(out, c);
    }
    proof {
        assert(final(out)@ =~= old(out)@ + escape_char(c));
    }
}

fn write_escaped(s: &str, out: &mut String)
    ensures
        final(out)@ == old(out)@ + escape_string(s@),
{
    let n = s.unicode_len();
    let mut i: usize = 0;
    while i < n
        invariant
            i <= n,
            n == s@.len(),
            out@ == old(out)@ + escape_string(s@.take(i as int)),
        decreases n - i,
    {
        let c = s.get_char(i);
        write_escaped_char(c, out);
        proof {
            assert(s@.take(i + 1).drop_last() =~= s@.take(i as int));
            assert(s@.take(i + 1).last() == c);
        }
        i = i + 1;
    }
    proof {
        assert(s@.take(n as int) =~= s@);
    }
}

/// Writes the compact rendering of `v` onto the end of `out`.
pub fn write_json(v: &JsonValue, out: &mut String)
    ensures
        final(out)@ == old(out)@ + render(v.deep()),
    decreases *v,
{
    match v {
        JsonValue::Null => {
            proof {
                reveal_strlit("null");
                assert("null"@ =~= seq!['n', 'u', 'l', 'l']);
            }
            out.append("null");
        },
        JsonValue::Bool(b) => {
            if *b {
                proof {
                    reveal_strlit("true");
                    assert("true"@ =~= seq!['t', 'r', 'u', 'e']);
                }
                out.append("true");
            } else {
                proof {
                    reveal_strlit("false");
                    assert("false"@ =~= seq!['f', 'a', 'l', 's', 'e']);
                }
                out.append("false");
            }
        },
        JsonValue::Int(i) => {
            write_int(*i, out);
        },
        JsonValue::Num(s) => {
            out.append(s.as_str());
        },
        JsonValue::Str(s) => {
            push_char(out, '"');
            write_escaped(s.as_str(), out);
            push_char(out, '"');
            proof {
                assert(final(out)@ =~= old(out)@ + render(v.deep()));
            }
        },
        JsonValue::Array(items) => {
            let ghost ds = deep_elems(*items, items@.len() as int);
            proof {
                lemma_deep_elems(*items, items@.len() as int);
            }
            push_char(out, '[');
            let ghost base = out@;
            let n = items.len();
            let mut i: usize = 0;
            while i < n
                invariant
                    i <= n,
                    n == items@.len(),
                    ds == deep_elems(*items, items@.len() as int),
                    ds.len() == n,
                    forall|j: int| 0 <= j < n ==> ds[j] == items@[j].deep(),
                    out@ == base + render_items(ds, i as int),
                    decreases_to!(*v => *items),
                decreases n - i,
            {
                if i > 0 {
                    push_char(out, ',');
                }
                proof {
                    assert(decreases_to!(*items => items@));
                    assert(decreases_to!(items@ => items@[i as int]));
                }
                write_json(&items[i], out);
                proof {
                    assert(out@ =~= base + render_items(ds, i + 1));
                }
                i = i + 1;
            }
            push_char(out, ']');
            proof {
                assert(final(out)@ =~= old(out)@ + render(v.deep()));
            }
        },
        JsonValue::Object(fields) => {
            let ghost df = deep_fields(*fields, fields@.len() as int);
            proof {
                lemma_deep_fields(*fields, fields@.len() as int);
            }
            push_char(out, '{');
            let ghost base = out@;
            let n = fields.len();
            let mut i: usize = 0;
            while i < n
                invariant
                    i <= n,
                    n == fields@.len(),
                    df == deep_fields(*fields, fields@.len() as int),
                    df.len() == n,
                    forall|j: int| 0 <= j < n ==> df[j] == (fields@[j].0@, fields@[j].1.deep()),
                    out@ == base + render_fields(df, i as int),
                    decreases_to!(*v => *fields),
                decreases n - i,
            {
                if i > 0 {
                    push_char(out, ',');
                }
                let entry = &fields[i];
                push_char(out, '"');
                write_escaped(entry.0.as_str(), out);
                push_char(out, '"');
                push_char(out, ':');
                proof {
                    assert(decreases_to!(*fields => fields@));
                    assert(decreases_to!(fields@ => fields@[i as int]));
                }
                write_json(&entry.1, out);
                proof {
                    assert(out@ =~= base + render_fields(df, i as int) + (if i > 0 {
                        seq![',']
                    } else {
                        Seq::<char>::empty()
                    }) + render_entry(df[i as int]));
                    assert(out@ =~= base + render_fields(df, i + 1));
                }
                i = i + 1;
            }
            push_char(out, '}');
            proof {
                assert(final(out)@ =~= old(out)@ + render(v.deep()));
            }
        },
    }
}

/// The compact rendering of `v` as a fresh string.
pub fn render_json(v: &JsonValue) -> (out: String)
    ensures
        out@ == render(v.deep()),
{
    let mut out = String::new();
    write_json(v, &mut out);
    proof {
        assert(out@ =~= render(v.deep()));
    }
    out
}

/// A deep copy of a list of object fields, preserving every key view and
/// value shape.
pub fn clone_fields(fields: &Vec<(String, JsonValue)>) -> (r: Vec<(String, JsonValue)>)
    ensures
        r@.len() == fields@.len(),
        forall|i: int|
            0 <= i < r@.len() ==> r@[i].0@ == fields@[i].0@ && r@[i].1.deep()
                == fields@[i].1.deep(),
        deep_fields(r, r@.len() as int) == deep_fields(*fields, fields@.len() as int),
{
    let n = fields.len();
    let mut copy: Vec<(String, JsonValue)> = Vec::new();
    let mut i: usize = 0;
    while i < n
        invariant
            i <= n,
            n == fields@.len(),
            copy@.len() == i,
            forall|j: int|
                0 <= j < i ==> copy@[j].0@ == fields@[j].0@ && copy@[j].1.deep()
                    == fields@[j].1.deep(),
        decreases n - i,
    {
        let entry = &fields[i];
        let k = entry.0.clone();
        let v = entry.1.clone();
        copy.push((k, v));
        i = i + 1;
    }
    proof {
        lemma_deep_fields(copy, n as int);
        lemma_deep_fields(*fields, n as int);
        assert(deep_fields(copy, n as int) =~= deep_fields(*fields, n as int));
    }
    copy
}

/// A copy of a list of strings; string copies are equal to their sources.
pub fn clone_strings(strings: &Vec<String>) -> (r: Vec<String>)
    ensures
        r@ == strings@,
{
    let n = strings.len();
    let mut copy: Vec<String> = Vec::new();
    let mut i: usize = 0;
    while i < n
        invariant
            i <= n,
            n == strings@.len(),
            copy@.len() == i,
            forall|j: int| 0 <= j < i ==> copy@[j] == strings@[j],
        decreases n - i,
    {
        copy.push(strings[i].clone());
        i = i + 1;
    }
    proof {
        assert(copy@ =~= strings@);
    }
    copy
}

/// The mathematical shape of an optional JSON argument object.
pub open spec fn args_deep(args: Option<Vec<(String, JsonValue)>>) -> Option<
    Seq<(Seq<char>, JVal)>,
> {
    match args {
        Some(fields) => Some(deep_fields(fields, fields@.len() as int)),
        None => None,
    }
}

/// The mathematical shape of a handler outcome: a JSON value or an error
/// text.
pub open spec fn outcome_deep(r: Result<JsonValue, String>) -> Result<JVal, Seq<char>> {
    match r {
        Ok(v) => Ok(v.deep()),
        Err(e) => Err(e@),
    }
}

impl Clone for JsonValue {
    /// A deep copy with the same mathematical value.
    fn clone(&self) -> (res: Self)
        ensures
            res.deep() == self.deep(),
        decreases *self,
    {
        match self {
            JsonValue::Null => JsonValue::Null,
            JsonValue::Bool(b) => JsonValue::Bool(*b),
            JsonValue::Int(i) => JsonValue::Int(*i),
            JsonValue::Num(s) => JsonValue::Num(s.clone()),
            JsonValue::Str(s) => JsonValue::Str(s.clone()),
            JsonValue::Array(items) => {
                let n = items.len();
                let mut copy: Vec<JsonValue> = Vec::new();
                let mut i: usize = 0;
                while i < n
                    invariant
                        i <= n,
                        n == items@.len(),
                        copy@.len() == i,
                        forall|j: int| 0 <= j < i ==> copy@[j].deep() == items@[j].deep(),
                        decreases_to!(*self => *items),
                    decreases n - i,
                {
                    proof {
                        assert(decreases_to!(*items => items@));
                        assert(decreases_to!(items@ => items@[i as int]));
                    }
                    let c = items[i].clone();
                    copy.push(c);
                    i = i + 1;
                }
                proof {
                    lemma_deep_elems(copy, n as int);
                    lemma_deep_elems(*items, n as int);
                    assert(deep_elems(copy, n as int) =~= deep_elems(*items, n as int));
                }
                JsonValue::Array(copy)
            },
            JsonValue::Object(fields) => {
                let n = fields.len();
                let mut copy: Vec<(String, JsonValue)> = Vec::new();
                let mut i: usize = 0;
                while i < n
                    invariant
                        i <= n,
                        n == fields@.len(),
                        copy@.len() == i,
                        forall|j: int|
                            0 <= j < i ==> copy@[j].0@ == fields@[j].0@ && copy@[j].1.deep()
                                == fields@[j].1.deep(),
                        decreases_to!(*self => *fields),
                    decreases n - i,
                {
                    proof {
                        assert(decreases_to!(*fields => fields@));
                        assert(decreases_to!(fields@ => fields@[i as int]));
                    }
                    let entry = &fields[i];
                    let k = entry.0.clone();
                    let v = entry.1.clone();
                    copy.push((k, v));
                    i = i + 1;
                }
                proof {
                    lemma_deep_fields(copy, n as int);
                    lemma_deep_fields(*fields, n as int);
                    assert(deep_fields(copy, n as int) =~= deep_fields(*fields, n as int));
                }
                JsonValue::Object(copy)
            },
        }
    }
}

} // verus!
