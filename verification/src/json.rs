//! JSON values as plain data: the wire payloads are parsed into this
//! type, and the observation codec reads and builds it.

use vstd::prelude::*;

verus! {

broadcast use vstd::std_specs::vec::group_vec_axioms;

/// A JSON value held as plain values: a number keeps the decimal text it
/// was printed with, an object is the ordered list of its fields.
#[derive(Debug, PartialEq)]
pub enum JsonValue {
    Null,
    Bool(bool),
    Num(String),
    Str(String),
    Arr(Vec<JsonValue>),
    Obj(Vec<(String, JsonValue)>),
}

/// The mathematical model of a JSON value.
pub ghost enum JsonV {
    Null,
    Bool(bool),
    Num(Seq<char>),
    Str(Seq<char>),
    Arr(Seq<JsonV>),
    Obj(Seq<(Seq<char>, JsonV)>),
}

/// The model of a list of JSON values. (The range test only justifies
/// termination; `Seq::new` never applies the function out of range.)
pub open spec fn jv_seq(items: Vec<JsonValue>) -> Seq<JsonV>
    decreases items,
{
    Seq::new(
        items@.len(),
        |i: int|
            if 0 <= i < items@.len() {
                jv(items[i])
            } else {
                JsonV::Null
            },
    )
}

/// The model of one field of an object.
pub open spec fn jv_pair(p: (String, JsonValue)) -> (Seq<char>, JsonV)
    decreases p,
{
    (p.0@, jv(p.1))
}

/// The model of an object's field list. (The range test only justifies
/// termination; `Seq::new` never applies the function out of range.)
pub open spec fn jv_fields(fields: Vec<(String, JsonValue)>) -> Seq<(Seq<char>, JsonV)>
    decreases fields,
{
    Seq::new(
        fields@.len(),
        |i: int|
            if 0 <= i < fields@.len() {
                jv_pair(fields[i])
            } else {
                (Seq::empty(), JsonV::Null)
            },
    )
}

/// The model of a JSON value.
pub open spec fn jv(v: JsonValue) -> JsonV
    decreases v,
{
    match v {
        JsonValue::Null => JsonV::Null,
        JsonValue::Bool(b) => JsonV::Bool(b),
        JsonValue::Num(s) => JsonV::Num(s@),
        JsonValue::Str(s) => JsonV::Str(s@),
        JsonValue::Arr(items) => JsonV::Arr(jv_seq(items)),
        JsonValue::Obj(fields) => JsonV::Obj(jv_fields(fields)),
    }
}

impl View for JsonValue {
    type V = JsonV;

    open spec fn view(&self) -> JsonV {
        jv(*self)
    }
}

/// The value of the first field with the given name, if any.
pub open spec fn spec_lookup(fields: Seq<(Seq<char>, JsonV)>, key: Seq<char>) -> Option<JsonV>
    decreases fields.len(),
{
    if fields.len() == 0 {
        None
    } else if fields[0].0 == key {
        Some(fields[0].1)
    } else {
        spec_lookup(fields.drop_first(), key)
    }
}

proof fn lemma_lookup_at(fields: Seq<(Seq<char>, JsonV)>, key: Seq<char>, i: int)
    requires
        0 <= i < fields.len(),
        fields[i].0 == key,
        forall|j: int| 0 <= j < i ==> fields[j].0 != key,
    ensures
        spec_lookup(fields, key) == Some(fields[i].1),
    decreases i,
{
    if i > 0 {
        lemma_lookup_at(fields.drop_first(), key, i - 1);
    }
}

proof fn lemma_lookup_none(fields: Seq<(Seq<char>, JsonV)>, key: Seq<char>)
    requires
        forall|j: int| 0 <= j < fields.len() ==> fields[j].0 != key,
    ensures
        spec_lookup(fields, key) is None,
    decreases fields.len(),
{
    if fields.len() > 0 {
        lemma_lookup_none(fields.drop_first(), key);
    }
}

/// Find the first field with the given name in an object's field list.
pub fn lookup<'a>(fields: &'a Vec<(String, JsonValue)>, key: &str) -> (r: Option<&'a JsonValue>)
    ensures
        match r {
            Some(v) => spec_lookup(jv_fields(*fields), key@) == Some(jv(*v)),
            None => spec_lookup(jv_fields(*fields), key@) is None,
        },
{
    let ghost m = jv_fields(*fields);
    let n = fields.len();
    let mut i: usize = 0;
    while i < n
        invariant
            n == fields@.len(),
            m == jv_fields(*fields),
            0 <= i <= n,
            forall|j: int| 0 <= j < i ==> m[j].0 != key@,
        decreases n - i,
    {
        if crate::query::str_eq(fields[i].0.as_str(), key) {
            proof {
                lemma_lookup_at(m, key@, i as int);
            }
            return Some(&fields[i].1);
        }
        i = i + 1;
    }
    proof {
        lemma_lookup_none(m, key@);
    }
    None
}

/// A copy of a JSON value that models the same `JsonV`.
pub fn json_clone(v: &JsonValue) -> (r: JsonValue)
    ensures
        r@ == v@,
    decreases *v,
{
    match v {
        JsonValue::Null => JsonValue::Null,
        JsonValue::Bool(b) => JsonValue::Bool(*b),
        JsonValue::Num(s) => JsonValue::Num(s.clone()),
        JsonValue::Str(s) => JsonValue::Str(s.clone()),
        JsonValue::Arr(items) => {
            proof {
                assert(decreases_to!(*v => v->Arr_0));
            }
            JsonValue::Arr(json_clone_vec(items))
        },
        JsonValue::Obj(fields) => {
            proof {
                assert(decreases_to!(*v => v->Obj_0));
            }
            JsonValue::Obj(json_clone_fields(fields))
        },
    }
}

fn json_clone_vec(items: &Vec<JsonValue>) -> (r: Vec<JsonValue>)
    ensures
        jv_seq(r) == jv_seq(*items),
    decreases *items,
{
    let n = items.len();
    let mut out: Vec<JsonValue> = Vec::new();
    let mut i: usize = 0;
    while i < n
        invariant
            n == items@.len(),
            0 <= i <= n,
            out@.len() == i,
            forall|j: int| 0 <= j < i ==> #[trigger] out@[j]@ == items@[j]@,
        decreases n - i,
    {
        proof {
            assert(decreases_to!(*items => items[i as int]));
        }
        let c = json_clone(&items[i]);
        out.push(c);
        i = i + 1;
    }
    proof {
        assert forall|j: int| 0 <= j < n implies jv_seq(out)[j] == jv_seq(*items)[j] by {
            assert(out@[j]@ == items@[j]@);
        }
        assert(jv_seq(out) =~= jv_seq(*items));
    }
    out
}

fn json_clone_fields(fields: &Vec<(String, JsonValue)>) -> (r: Vec<(String, JsonValue)>)
    ensures
        jv_fields(r) == jv_fields(*fields),
    decreases *fields,
{
    let n = fields.len();
    let mut out: Vec<(String, JsonValue)> = Vec::new();
    let mut i: usize = 0;
    while i < n
        invariant
            n == fields@.len(),
            0 <= i <= n,
            out@.len() == i,
            forall|j: int|
                0 <= j < i ==> #[trigger] out@[j].0@ == fields@[j].0@ && out@[j].1@
                    == fields@[j].1@,
        decreases n - i,
    {
        proof {
            assert(decreases_to!(*fields => fields[i as int]));
            assert(decreases_to!(fields[i as int] => fields[i as int].1));
        }
        let k = fields[i].0.clone();
        let c = json_clone(&fields[i].1);
        out.push((k, c));
        i = i + 1;
    }
    proof {
        assert(jv_fields(out) =~= jv_fields(*fields));
    }
    out
}

/// serde_json's JSON value, declared so the converter below can take it.
#[verifier::external_type_specification]
#[verifier::external_body]
pub struct ExValue(serde_json::Value);

/// The JSON value a text parses to, if it parses: what
/// `serde_json::from_str` yields on the text, carried over into the
/// library's value type. A function of the text alone.
pub uninterp spec fn json_of_text(s: Seq<char>) -> Option<JsonV>;

/// Relies on serde_json::Value: tells its six variants apart and moves
/// each into the library's own value type; a number keeps the decimal
/// text its Display form prints.
#[verifier::external_body]
fn from_value(v: serde_json::Value) -> JsonValue {
    match v {
        serde_json::Value::Null => JsonValue::Null,
        serde_json::Value::Bool(b) => JsonValue::Bool(b),
        serde_json::Value::Number(n) => JsonValue::Num(n.to_string()),
        serde_json::Value::String(s) => JsonValue::Str(s),
        serde_json::Value::Array(a) => JsonValue::Arr(a.into_iter().map(from_value).collect()),
        serde_json::Value::Object(m) => JsonValue::Obj(
            m.into_iter().map(|(k, x)| (k, from_value(x))).collect(),
        ),
    }
}

/// Relies on serde_json::from_str: whether a text is valid JSON, and
/// which value it names, is a function of the text alone; the parsed
/// value, moved into the library's type, is named `json_of_text`. A text
/// that does not parse yields the parser's message.
#[verifier::external_body]
pub fn parse_json(text: &str) -> (r: Result<JsonValue, String>)
    ensures
        match r {
            Ok(v) => json_of_text(text@) == Some(v@),
            Err(_) => json_of_text(text@) is None,
        },
{
    match serde_json::from_str::<serde_json::Value>(text) {
        Ok(v) => Ok(from_value(v)),
        Err(e) => Err(e.to_string()),
    }
}

} // verus!
