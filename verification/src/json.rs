use vstd::prelude::*;

verus! {

/// A JSON document, held as plain values so that every rule that reads
/// one can be verified.  Numbers that fit in `i64` are kept exactly;
/// any other number is carried as its decimal text.
#[derive(Debug)]
pub enum JsonValue {
    Null,
    Bool(bool),
    Int(i64),
    Num(String),
    Str(String),
    Arr(Vec<JsonValue>),
    Obj(Vec<(String, JsonValue)>),
}

impl JsonValue {
    pub fn is_null(&self) -> (r: bool)
        ensures
            r == (self is Null),
    {
        match self {
            JsonValue::Null => true,
            _ => false,
        }
    }
}

/// Structural equality of two documents.  Object fields are compared
/// in sequence order, the order in which the parser yields them.
pub open spec fn json_eq(a: JsonValue, b: JsonValue) -> bool
    decreases a,
{
    match a {
        JsonValue::Null => b is Null,
        JsonValue::Bool(x) => b matches JsonValue::Bool(y) && x == y,
        JsonValue::Int(x) => b matches JsonValue::Int(y) && x == y,
        JsonValue::Num(x) => b matches JsonValue::Num(y) && x@ == y@,
        JsonValue::Str(x) => b matches JsonValue::Str(y) && x@ == y@,
        JsonValue::Arr(x) => b matches JsonValue::Arr(y) && x@.len() == y@.len() && (forall|i: int|
            0 <= i < x@.len() ==> json_eq(#[trigger] x@[i], y@[i])),
        JsonValue::Obj(x) => b matches JsonValue::Obj(y) && x@.len() == y@.len() && (forall|i: int|
            0 <= i < x@.len() ==> (#[trigger] x@[i]).0@ == y@[i].0@ && json_eq(x@[i].1, y@[i].1)),
    }
}

pub fn value_eq(a: &JsonValue, b: &JsonValue) -> (r: bool)
    ensures
        r == json_eq(*a, *b),
    decreases *a,
{
    broadcast use vstd::std_specs::vec::axiom_vec_index_decreases;

    match a {
        JsonValue::Null => match b {
            JsonValue::Null => true,
            _ => false,
        },
        JsonValue::Bool(x) => match b {
            JsonValue::Bool(y) => *x == *y,
            _ => false,
        },
        JsonValue::Int(x) => match b {
            JsonValue::Int(y) => *x == *y,
            _ => false,
        },
        JsonValue::Num(x) => match b {
            JsonValue::Num(y) => *x == *y,
            _ => false,
        },
        JsonValue::Str(x) => match b {
            JsonValue::Str(y) => *x == *y,
            _ => false,
        },
        JsonValue::Arr(x) => match b {
            JsonValue::Arr(y) => {
            if x.len() != y.len() {
                return false;
            }
            let mut i: usize = 0;
            while i < x.len()
                invariant
                    i <= x@.len(),
                    x@.len() == y@.len(),
                    a is Arr && a->Arr_0 == *x,
                    b is Arr && b->Arr_0 == *y,
                    forall|j: int| 0 <= j < i ==> json_eq(#[trigger] x@[j], y@[j]),
                decreases x@.len() - i,
            {
                if !value_eq(&x[i], &y[i]) {
                    return false;
                }
                i += 1;
            }
            true
            },
            _ => false,
        },
        JsonValue::Obj(x) => match b {
            JsonValue::Obj(y) => {
            if x.len() != y.len() {
                return false;
            }
            let mut i: usize = 0;
            while i < x.len()
                invariant
                    i <= x@.len(),
                    x@.len() == y@.len(),
                    a is Obj && a->Obj_0 == *x,
                    b is Obj && b->Obj_0 == *y,
                    forall|j: int|
                        0 <= j < i ==> (#[trigger] x@[j]).0@ == y@[j].0@ && json_eq(
                            x@[j].1,
                            y@[j].1,
                        ),
                decreases x@.len() - i,
            {
                if !(x[i].0 == y[i].0) {
                    return false;
                }
                if !value_eq(&x[i].1, &y[i].1) {
                    return false;
                }
                i += 1;
            }
            true
            },
            _ => false,
        },
    }
}

/// A deep copy, equal to its source under `json_eq`.
pub fn clone_value(v: &JsonValue) -> (r: JsonValue)
    ensures
        json_eq(r, *v),
    decreases *v,
{
    broadcast use vstd::std_specs::vec::axiom_vec_index_decreases;

    match v {
        JsonValue::Null => JsonValue::Null,
        JsonValue::Bool(b) => JsonValue::Bool(*b),
        JsonValue::Int(i) => JsonValue::Int(*i),
        JsonValue::Num(s) => JsonValue::Num(s.clone()),
        JsonValue::Str(s) => JsonValue::Str(s.clone()),
        JsonValue::Arr(items) => {
            let mut out: Vec<JsonValue> = Vec::new();
            let mut i: usize = 0;
            while i < items.len()
                invariant
                    i <= items@.len(),
                    v is Arr && v->Arr_0 == *items,
                    out@.len() == i,
                    forall|j: int| 0 <= j < i ==> json_eq(#[trigger] out@[j], items@[j]),
                decreases items@.len() - i,
            {
                out.push(clone_value(&items[i]));
                i += 1;
            }
            JsonValue::Arr(out)
        },
        JsonValue::Obj(fields) => {
            let mut out: Vec<(String, JsonValue)> = Vec::new();
            let mut i: usize = 0;
            while i < fields.len()
                invariant
                    i <= fields@.len(),
                    v is Obj && v->Obj_0 == *fields,
                    out@.len() == i,
                    forall|j: int|
                        0 <= j < i ==> (#[trigger] out@[j]).0@ == fields@[j].0@ && json_eq(
                            out@[j].1,
                            fields@[j].1,
                        ),
                decreases fields@.len() - i,
            {
                let key = fields[i].0.clone();
                let val = clone_value(&fields[i].1);
                out.push((key, val));
                i += 1;
            }
            JsonValue::Obj(out)
        },
    }
}

impl Clone for JsonValue {
    /// A deep copy; it equals its source under `json_eq`.
    fn clone(&self) -> (r: Self)
        ensures
            json_eq(r, *self),
    {
        clone_value(self)
    }
}

/// The segments of a dot-separated response-path, in order; empty
/// segments are kept, exactly as splitting on every `'.'` leaves them.
pub open spec fn spec_segments(path: Seq<char>) -> Seq<Seq<char>>
    decreases path.len(),
{
    if path.len() == 0 {
        seq![Seq::<char>::empty()]
    } else if path[0] == '.' {
        seq![Seq::<char>::empty()] + spec_segments(path.drop_first())
    } else {
        let rest = spec_segments(path.drop_first());
        seq![seq![path[0]] + rest[0]] + rest.drop_first()
    }
}

pub proof fn lemma_segments_nonempty(path: Seq<char>)
    ensures
        spec_segments(path).len() >= 1,
    decreases path.len(),
{
    if path.len() != 0 {
        lemma_segments_nonempty(path.drop_first());
    }
}

/// Splits a response-path at every `'.'`.
pub fn split_path(path: &str) -> (r: Vec<String>)
    ensures
        r@.len() == spec_segments(path@).len(),
        forall|i: int| 0 <= i < r@.len() ==> (#[trigger] r@[i])@ == spec_segments(path@)[i],
    decreases path@.len(),
{
    let n = path.unicode_len();
    if n == 0 {
        let mut out: Vec<String> = Vec::new();
        out.push(String::new());
        assert(out@.len() == spec_segments(path@).len());
        return out;
    }
    let c = path.get_char(0);
    let tail_str = path.substring_char(1, n);
    if c == '.' {
        let mut out: Vec<String> = Vec::new();
        out.push(String::new());
        let mut tail = split_path(tail_str);
        out.append(&mut tail);
        assert(spec_segments(path@) == seq![Seq::<char>::empty()] + spec_segments(
            path@.drop_first(),
        ));
        assert(forall|i: int|
            0 <= i < out@.len() ==> (#[trigger] out@[i])@ == spec_segments(path@)[i]);
        out
    } else {
        let mut tail = split_path(tail_str);
        proof {
            lemma_segments_nonempty(path@.drop_first());
        }
        let head = tail.remove(0);
        let first_str = path.substring_char(0, 1);
        let joined = first_str.to_owned().concat(head.as_str());
        tail.insert(0, joined);
        proof {
            let rest = spec_segments(path@.drop_first());
            assert(spec_segments(path@) == seq![seq![path@[0]] + rest[0]] + rest.drop_first());
            assert(joined@ == seq![path@[0]] + rest[0]);
            assert(forall|i: int|
                0 <= i < tail@.len() ==> (#[trigger] tail@[i])@ == spec_segments(path@)[i]);
        }
        tail
    }
}

/// Indexing one object level: the value of the first field named `key`,
/// or null when no field carries that name.
pub open spec fn obj_lookup(fields: Seq<(String, JsonValue)>, key: Seq<char>) -> JsonValue
    decreases fields.len(),
{
    if fields.len() == 0 {
        JsonValue::Null
    } else if fields[0].0@ == key {
        fields[0].1
    } else {
        obj_lookup(fields.drop_first(), key)
    }
}

/// Indexing any value: only an object can yield a field; indexing
/// anything else gives null, never an error.
pub open spec fn spec_index(v: JsonValue, key: Seq<char>) -> JsonValue {
    match v {
        JsonValue::Obj(fields) => obj_lookup(fields@, key),
        _ => JsonValue::Null,
    }
}

/// Resolving a sequence of segments, one indexing step per segment.
pub open spec fn spec_resolve_segs(v: JsonValue, segs: Seq<Seq<char>>) -> JsonValue
    decreases segs.len(),
{
    if segs.len() == 0 {
        v
    } else {
        spec_resolve_segs(spec_index(v, segs[0]), segs.drop_first())
    }
}

/// The response-path grammar: what a dot-separated path names inside a
/// JSON value.
pub open spec fn spec_resolve(v: JsonValue, path: Seq<char>) -> JsonValue {
    spec_resolve_segs(v, spec_segments(path))
}

pub proof fn lemma_resolve_null(segs: Seq<Seq<char>>)
    ensures
        spec_resolve_segs(JsonValue::Null, segs) == JsonValue::Null,
    decreases segs.len(),
{
    if segs.len() != 0 {
        lemma_resolve_null(segs.drop_first());
    }
}

/// Law: resolving the same response-path twice on an unmodified JSON
/// value yields identical results.
pub proof fn lemma_resolve_idempotent(v: JsonValue, path: Seq<char>, r1: JsonValue, r2: JsonValue)
    requires
        r1 == spec_resolve(v, path),
        r2 == spec_resolve(v, path),
    ensures
        r1 == r2,
{
}

pub open spec fn seg_views(segs: Seq<String>) -> Seq<Seq<char>> {
    segs.map_values(|s: String| s@)
}

fn obj_get<'a>(fields: &'a Vec<(String, JsonValue)>, key: &String) -> (r: Option<&'a JsonValue>)
    ensures
        match r {
            Some(x) => *x == obj_lookup(fields@, key@),
            None => obj_lookup(fields@, key@) == JsonValue::Null,
        },
{
    let n = fields.len();
    let mut i: usize = 0;
    proof {
        assert(fields@.skip(0) =~= fields@);
    }
    while i < n
        invariant
            i <= n,
            n == fields@.len(),
            obj_lookup(fields@, key@) == obj_lookup(fields@.skip(i as int), key@),
        decreases n - i,
    {
        proof {
            assert(fields@.skip(i as int)[0] == fields@[i as int]);
            assert(fields@.skip(i as int).drop_first() =~= fields@.skip(i as int + 1));
        }
        if fields[i].0 == *key {
            return Some(&fields[i].1);
        }
        i += 1;
    }
    proof {
        assert(fields@.skip(n as int).len() == 0);
    }
    None
}

/// Resolving pre-split segments against a value.  `None` means the
/// path names nothing: its resolved value is null.
pub fn resolve_segs<'a>(v: &'a JsonValue, segs: &Vec<String>) -> (r: Option<&'a JsonValue>)
    ensures
        match r {
            Some(x) => *x == spec_resolve_segs(*v, seg_views(segs@)),
            None => spec_resolve_segs(*v, seg_views(segs@)) == JsonValue::Null,
        },
{
    let n = segs.len();
    let mut cur: &'a JsonValue = v;
    let mut i: usize = 0;
    proof {
        assert(seg_views(segs@).skip(0) =~= seg_views(segs@));
    }
    while i < n
        invariant
            i <= n,
            n == segs@.len(),
            spec_resolve_segs(*v, seg_views(segs@)) == spec_resolve_segs(
                *cur,
                seg_views(segs@).skip(i as int),
            ),
        decreases n - i,
    {
        proof {
            assert(seg_views(segs@).skip(i as int)[0] == segs@[i as int]@);
            assert(seg_views(segs@).skip(i as int).drop_first() =~= seg_views(segs@).skip(
                i as int + 1,
            ));
        }
        match cur {
            JsonValue::Obj(fields) => {
                match obj_get(fields, &segs[i]) {
                    Some(next) => {
                        cur = next;
                    },
                    None => {
                        proof {
                            lemma_resolve_null(seg_views(segs@).skip(i as int + 1));
                        }
                        return None;
                    },
                }
            },
            _ => {
                proof {
                    lemma_resolve_null(seg_views(segs@).skip(i as int + 1));
                }
                return None;
            },
        }
        i += 1;
    }
    proof {
        assert(seg_views(segs@).skip(n as int).len() == 0);
    }
    Some(cur)
}

/// Resolving a dot-separated response-path against a value.  `None`
/// means the resolved value is null.
pub fn resolve_path<'a>(v: &'a JsonValue, path: &str) -> (r: Option<&'a JsonValue>)
    ensures
        match r {
            Some(x) => *x == spec_resolve(*v, path@),
            None => spec_resolve(*v, path@) == JsonValue::Null,
        },
{
    let segs = split_path(path);
    proof {
        assert(seg_views(segs@) =~= spec_segments(path@));
    }
    resolve_segs(v, &segs)
}

/// The first position whose field carries `key`, or the length when
/// no field does.
pub open spec fn spec_key_index(fields: Seq<(String, JsonValue)>, key: Seq<char>) -> int
    decreases fields.len(),
{
    if fields.len() == 0 {
        0
    } else if fields[0].0@ == key {
        0
    } else {
        1 + spec_key_index(fields.drop_first(), key)
    }
}

pub proof fn lemma_key_index_range(fields: Seq<(String, JsonValue)>, key: Seq<char>)
    ensures
        0 <= spec_key_index(fields, key) <= fields.len(),
        spec_key_index(fields, key) < fields.len() ==> fields[spec_key_index(fields, key)].0@
            == key,
        forall|j: int| 0 <= j < spec_key_index(fields, key) ==> (#[trigger] fields[j]).0@ != key,
    decreases fields.len(),
{
    if fields.len() != 0 && fields[0].0@ != key {
        lemma_key_index_range(fields.drop_first(), key);
        assert(forall|j: int|
            1 <= j < spec_key_index(fields, key) ==> (#[trigger] fields[j])
                == fields.drop_first()[j - 1]);
    }
}

/// Whether two field sequences agree: same keys in order, values
/// equal under `json_eq`.
pub open spec fn fields_like(a: Seq<(String, JsonValue)>, b: Seq<(String, JsonValue)>) -> bool {
    a.len() == b.len() && forall|j: int|
        0 <= j < a.len() ==> (#[trigger] a[j]).0@ == b[j].0@ && json_eq(a[j].1, b[j].1)
}

/// `spec_key_index` reads only the keys, so field sequences that
/// agree key-for-key put any key at the same position.
pub proof fn lemma_key_index_congruent(
    a: Seq<(String, JsonValue)>,
    b: Seq<(String, JsonValue)>,
    key: Seq<char>,
)
    requires
        a.len() == b.len(),
        forall|j: int| 0 <= j < a.len() ==> (#[trigger] a[j]).0@ == b[j].0@,
    ensures
        spec_key_index(a, key) == spec_key_index(b, key),
    decreases a.len(),
{
    if a.len() != 0 {
        assert(a[0].0@ == b[0].0@);
        lemma_key_index_congruent(a.drop_first(), b.drop_first(), key);
    }
}

/// A copy of an object's fields, agreeing with the source under
/// `fields_like`.
pub fn clone_fields(fields: &Vec<(String, JsonValue)>) -> (r: Vec<(String, JsonValue)>)
    ensures
        fields_like(r@, fields@),
{
    let mut out: Vec<(String, JsonValue)> = Vec::new();
    let mut i: usize = 0;
    while i < fields.len()
        invariant
            i <= fields@.len(),
            out@.len() == i,
            forall|j: int|
                0 <= j < i ==> (#[trigger] out@[j]).0@ == fields@[j].0@ && json_eq(
                    out@[j].1,
                    fields@[j].1,
                ),
        decreases fields@.len() - i,
    {
        let key = fields[i].0.clone();
        let val = clone_value(&fields[i].1);
        out.push((key, val));
        i += 1;
    }
    out
}

/// Sets `key` to `value` inside an object's fields: the first field
/// already carrying `key` is replaced in place, else the pair is
/// appended.
pub fn obj_insert(fields: &mut Vec<(String, JsonValue)>, key: String, value: JsonValue)
    ensures
        ({
            let i = spec_key_index(old(fields)@, key@);
            if i < old(fields)@.len() {
                final(fields)@ == old(fields)@.update(i, (key, value))
            } else {
                final(fields)@ == old(fields)@.push((key, value))
            }
        }),
{
    proof {
        lemma_key_index_range(fields@, key@);
    }
    let n = fields.len();
    let mut i: usize = 0;
    while i < n
        invariant
            i <= n,
            n == fields@.len(),
            fields@ == old(fields)@,
            forall|j: int| 0 <= j < i ==> (#[trigger] fields@[j]).0@ != key@,
            spec_key_index(fields@, key@) < fields@.len() ==> fields@[spec_key_index(
                fields@,
                key@,
            )].0@ == key@,
            0 <= spec_key_index(fields@, key@) <= fields@.len(),
            forall|j: int|
                0 <= j < spec_key_index(fields@, key@) ==> (#[trigger] fields@[j]).0@ != key@,
        decreases n - i,
    {
        if fields[i].0 == key {
            proof {
                let k = spec_key_index(fields@, key@);
                assert(k == i) by {
                    if k < i {
                        assert(fields@[k].0@ != key@);
                    }
                }
            }
            fields.remove(i);
            fields.insert(i, (key, value));
            proof {
                assert(fields@ =~= old(fields)@.update(i as int, (key, value)));
            }
            return ;
        }
        i += 1;
    }
    proof {
        let k = spec_key_index(fields@, key@);
        assert(k == fields@.len()) by {
            if k < fields@.len() {
                assert(fields@[k].0@ != key@);
            }
        }
    }
    fields.push((key, value));
}

/// serde_json's own value type, declared so that the conversion below
/// may take it; nothing inside it is visible to a proof.
#[verifier::external_type_specification]
#[verifier::external_body]
pub struct ExSerdeValue(serde_json::Value);

/// What `serde_json` parses a text into, under this crate's value
/// model: `None` when the text is not valid JSON.
pub uninterp spec fn json_of(text: Seq<char>) -> Option<JsonValue>;

/// Relies on serde_json::from_str for parsing; the parsed value is a
/// function of the text alone, named by `json_of`.
#[verifier::external_body]
pub(crate) fn parse_json(text: &str) -> (r: Option<JsonValue>)
    ensures
        r == json_of(text@),
{
    match serde_json::from_str::<serde_json::Value>(text) {
        Ok(v) => Some(from_outside(v)),
        Err(_) => None,
    }
}

/// Relies on serde_json::Value: each variant is carried over one for
/// one; a number becomes its `i64` value when it has one, else its
/// decimal text.
#[verifier::external_body]
fn from_outside(v: serde_json::Value) -> JsonValue {
    match v {
        serde_json::Value::Null => JsonValue::Null,
        serde_json::Value::Bool(b) => JsonValue::Bool(b),
        serde_json::Value::Number(n) => match n.as_i64() {
            Some(i) => JsonValue::Int(i),
            None => JsonValue::Num(n.to_string()),
        },
        serde_json::Value::String(s) => JsonValue::Str(s),
        serde_json::Value::Array(a) => JsonValue::Arr(
            a.into_iter().map(from_outside).collect(),
        ),
        serde_json::Value::Object(m) => JsonValue::Obj(
            m.into_iter().map(|(k, x)| (k, from_outside(x))).collect(),
        ),
    }
}

} // verus!
