//! A JSON document model: the values that requests and responses carry.
use vstd::prelude::*;
use crate::text::str_eq;

verus! {

/// A JSON number: a non-negative integer, a negative integer, or any other
/// number, kept as its text.
#[derive(Debug, Clone)]
pub enum JsonNumber {
    PosInt(u64),
    NegInt(i64),
    Float(String),
}

/// A JSON value.  Object fields keep their order; `get` finds the first
/// field with a key.
#[derive(Debug)]
pub enum Json {
    Null,
    Bool(bool),
    Number(JsonNumber),
    Str(String),
    Array(Vec<Json>),
    Object(Vec<(String, Json)>),
}

/// The mathematical content of a JSON value.
pub enum JsonValue {
    Null,
    Bool(bool),
    PosInt(u64),
    NegInt(i64),
    Float(Seq<char>),
    Str(Seq<char>),
    Array(Seq<JsonValue>),
    Object(Seq<(Seq<char>, JsonValue)>),
}

pub open spec fn view_items(s: Seq<Json>) -> Seq<JsonValue>
    decreases s,
{
    if s.len() == 0 {
        Seq::empty()
    } else {
        view_items(s.drop_last()).push(s.last().view_json())
    }
}

pub open spec fn view_fields(s: Seq<(String, Json)>) -> Seq<(Seq<char>, JsonValue)>
    decreases s,
{
    if s.len() == 0 {
        Seq::empty()
    } else {
        view_fields(s.drop_last()).push((s.last().0@, s.last().1.view_json()))
    }
}

impl Json {
    pub open spec fn view_json(self) -> JsonValue
        decreases self,
    {
        match self {
            Json::Null => JsonValue::Null,
            Json::Bool(b) => JsonValue::Bool(b),
            Json::Number(JsonNumber::PosInt(n)) => JsonValue::PosInt(n),
            Json::Number(JsonNumber::NegInt(n)) => JsonValue::NegInt(n),
            Json::Number(JsonNumber::Float(t)) => JsonValue::Float(t@),
            Json::Str(s) => JsonValue::Str(s@),
            Json::Array(a) => JsonValue::Array(view_items(a@)),
            Json::Object(f) => JsonValue::Object(view_fields(f@)),
        }
    }
}

pub proof fn lemma_view_items_len(s: Seq<Json>)
    ensures
        view_items(s).len() == s.len(),
        forall|i: int| 0 <= i < s.len() ==> #[trigger] view_items(s)[i] == s[i].view_json(),
    decreases s.len(),
{
    if s.len() > 0 {
        lemma_view_items_len(s.drop_last());
        assert forall|i: int| 0 <= i < s.len() implies #[trigger] view_items(s)[i]
            == s[i].view_json() by {
            if i < s.len() - 1 {
                assert(s.drop_last()[i] == s[i]);
            }
        }
    }
}

pub proof fn lemma_view_fields_len(s: Seq<(String, Json)>)
    ensures
        view_fields(s).len() == s.len(),
        forall|i: int|
            0 <= i < s.len() ==> #[trigger] view_fields(s)[i] == (s[i].0@, s[i].1.view_json()),
    decreases s.len(),
{
    if s.len() > 0 {
        lemma_view_fields_len(s.drop_last());
        assert forall|i: int| 0 <= i < s.len() implies #[trigger] view_fields(s)[i] == (
            s[i].0@,
            s[i].1.view_json(),
        ) by {
            if i < s.len() - 1 {
                assert(s.drop_last()[i] == s[i]);
            }
        }
    }
}

pub proof fn lemma_view_items_eq(a: Seq<Json>, b: Seq<Json>)
    requires
        a.len() == b.len(),
        forall|i: int| 0 <= i < a.len() ==> #[trigger] a[i].view_json() == b[i].view_json(),
    ensures
        view_items(a) == view_items(b),
{
    lemma_view_items_len(a);
    lemma_view_items_len(b);
    assert(view_items(a) =~= view_items(b));
}

pub proof fn lemma_view_fields_eq(a: Seq<(String, Json)>, b: Seq<(String, Json)>)
    requires
        a.len() == b.len(),
        forall|i: int|
            0 <= i < a.len() ==> #[trigger] a[i].0@ == b[i].0@ && a[i].1.view_json()
                == b[i].1.view_json(),
    ensures
        view_fields(a) == view_fields(b),
{
    lemma_view_fields_len(a);
    lemma_view_fields_len(b);
    assert(view_fields(a) =~= view_fields(b));
}

impl Json {
    /// A deep copy with the same content.
    #[verifier::loop_isolation(false)]
    pub fn duplicate(&self) -> (r: Json)
        ensures
            r.view_json() == self.view_json(),
        decreases self,
    {
        match self {
            Json::Null => Json::Null,
            Json::Bool(b) => Json::Bool(*b),
            Json::Number(JsonNumber::PosInt(n)) => Json::Number(JsonNumber::PosInt(*n)),
            Json::Number(JsonNumber::NegInt(n)) => Json::Number(JsonNumber::NegInt(*n)),
            Json::Number(JsonNumber::Float(t)) => Json::Number(JsonNumber::Float(t.clone())),
            Json::Str(s) => Json::Str(s.clone()),
            Json::Array(a) => {
                let mut out: Vec<Json> = Vec::new();
                let mut i: usize = 0;
                while i < a.len()
                    invariant
                        i <= a@.len(),
                        out@.len() == i,
                        forall|j: int| 0 <= j < i ==> #[trigger] out@[j].view_json()
                            == a@[j].view_json(),
                    decreases a@.len() - i,
                {
                    proof {
                        assert(decreases_to!(self => a@[i as int]));
                    }
                    let c = a[i].duplicate();
                    out.push(c);
                    i = i + 1;
                }
                proof {
                    lemma_view_items_eq(out@, a@);
                }
                Json::Array(out)
            },
            Json::Object(f) => {
                let mut out: Vec<(String, Json)> = Vec::new();
                let mut i: usize = 0;
                while i < f.len()
                    invariant
                        i <= f@.len(),
                        out@.len() == i,
                        forall|j: int| 0 <= j < i ==> #[trigger] out@[j].0@ == f@[j].0@
                            && out@[j].1.view_json() == f@[j].1.view_json(),
                    decreases f@.len() - i,
                {
                    proof {
                        assert(decreases_to!(self => f@[i as int].1));
                    }
                    let c = f[i].1.duplicate();
                    let k = f[i].0.clone();
                    out.push((k, c));
                    i = i + 1;
                }
                proof {
                    assert forall|j: int| 0 <= j < out@.len() implies #[trigger] out@[j].0@
                        == f@[j].0@ && out@[j].1.view_json() == f@[j].1.view_json() by {}
                    lemma_view_fields_eq(out@, f@);
                }
                Json::Object(out)
            },
        }
    }
}

impl Clone for Json {
    fn clone(&self) -> (r: Json)
        ensures
            r.view_json() == self.view_json(),
    {
        self.duplicate()
    }
}


/// The value of the first field named `key`.
pub open spec fn field_lookup(fields: Seq<(Seq<char>, JsonValue)>, key: Seq<char>) -> Option<JsonValue>
    decreases fields.len(),
{
    if fields.len() == 0 {
        None
    } else if fields[0].0 == key {
        Some(fields[0].1)
    } else {
        field_lookup(fields.drop_first(), key)
    }
}

/// The first field named `key` is the one found.
pub proof fn lemma_field_lookup_first(fields: Seq<(Seq<char>, JsonValue)>, i: int, key: Seq<char>)
    requires
        0 <= i < fields.len(),
        fields[i].0 == key,
        forall|j: int| 0 <= j < i ==> #[trigger] fields[j].0 != key,
    ensures
        field_lookup(fields, key) == Some(fields[i].1),
    decreases i,
{
    if i > 0 {
        assert(fields[0].0 != key);
        let rest = fields.drop_first();
        assert forall|j: int| 0 <= j < i - 1 implies #[trigger] rest[j].0 != key by {
            assert(rest[j] == fields[j + 1]);
        }
        lemma_field_lookup_first(rest, i - 1, key);
    }
}

/// No field is found under a key that no field has.
pub proof fn lemma_field_lookup_absent(fields: Seq<(Seq<char>, JsonValue)>, key: Seq<char>)
    requires
        forall|j: int| 0 <= j < fields.len() ==> #[trigger] fields[j].0 != key,
    ensures
        field_lookup(fields, key) is None,
    decreases fields.len(),
{
    if fields.len() > 0 {
        let rest = fields.drop_first();
        assert forall|j: int| 0 <= j < rest.len() implies #[trigger] rest[j].0 != key by {
            assert(rest[j] == fields[j + 1]);
        }
        lemma_field_lookup_absent(rest, key);
    }
}

impl JsonValue {
    /// `Value::get` with a key: the field of an object, if present.
    pub open spec fn get(self, key: Seq<char>) -> Option<JsonValue> {
        match self {
            JsonValue::Object(f) => field_lookup(f, key),
            _ => None,
        }
    }

    /// `Value::as_str`.
    pub open spec fn as_str(self) -> Option<Seq<char>> {
        match self {
            JsonValue::Str(s) => Some(s),
            _ => None,
        }
    }

    /// `Value::as_u64`: non-negative integers.
    pub open spec fn as_u64(self) -> Option<u64> {
        match self {
            JsonValue::PosInt(n) => Some(n),
            _ => None,
        }
    }

    /// `Value::as_i64`: integers that fit an `i64`.
    pub open spec fn as_i64(self) -> Option<i64> {
        match self {
            JsonValue::PosInt(n) => if n <= i64::MAX {
                Some(n as i64)
            } else {
                None
            },
            JsonValue::NegInt(n) => Some(n),
            _ => None,
        }
    }

    /// `Value::as_bool`.
    pub open spec fn as_bool(self) -> Option<bool> {
        match self {
            JsonValue::Bool(b) => Some(b),
            _ => None,
        }
    }

    /// `Value::as_array`.
    pub open spec fn as_array(self) -> Option<Seq<JsonValue>> {
        match self {
            JsonValue::Array(a) => Some(a),
            _ => None,
        }
    }
}

/// The string at `key` of an object, if there is one.
pub open spec fn get_str(v: JsonValue, key: Seq<char>) -> Option<Seq<char>> {
    match v.get(key) {
        Some(x) => x.as_str(),
        None => None,
    }
}

/// The field at `key` of an optional value.
pub open spec fn opt_get(v: Option<JsonValue>, key: Seq<char>) -> Option<JsonValue> {
    match v {
        Some(x) => x.get(key),
        None => None,
    }
}

proof fn lemma_lookup_first(s: Seq<(Seq<char>, JsonValue)>, key: Seq<char>, i: int)
    requires
        0 <= i < s.len(),
        s[i].0 == key,
        forall|j: int| 0 <= j < i ==> s[j].0 != key,
    ensures
        field_lookup(s, key) == Some(s[i].1),
    decreases i,
{
    if i > 0 {
        lemma_lookup_first(s.drop_first(), key, i - 1);
    }
}

proof fn lemma_lookup_absent(s: Seq<(Seq<char>, JsonValue)>, key: Seq<char>)
    requires
        forall|j: int| 0 <= j < s.len() ==> s[j].0 != key,
    ensures
        field_lookup(s, key) is None,
    decreases s.len(),
{
    if s.len() > 0 {
        lemma_lookup_absent(s.drop_first(), key);
    }
}

impl Json {
    /// The field named `key` of an object; nothing for other values.
    pub fn get(&self, key: &str) -> (r: Option<&Json>)
        ensures
            match r {
                Some(x) => self.view_json().get(key@) == Some(x.view_json()),
                None => self.view_json().get(key@) is None,
            },
    {
        match self {
            Json::Object(f) => {
                proof {
                    lemma_view_fields_len(f@);
                }
                let mut i: usize = 0;
                while i < f.len()
                    invariant
                        i <= f@.len(),
                        self.view_json() == JsonValue::Object(view_fields(f@)),
                        view_fields(f@).len() == f@.len(),
                        forall|j: int|
                            0 <= j < f@.len() ==> #[trigger] view_fields(f@)[j] == (
                                f@[j].0@,
                                f@[j].1.view_json(),
                            ),
                        forall|j: int| 0 <= j < i ==> view_fields(f@)[j].0 != key@,
                    decreases f@.len() - i,
                {
                    if str_eq(f[i].0.as_str(), key) {
                        proof {
                            lemma_lookup_first(view_fields(f@), key@, i as int);
                        }
                        return Some(&f[i].1);
                    }
                    i = i + 1;
                }
                proof {
                    lemma_lookup_absent(view_fields(f@), key@);
                }
                None
            },
            _ => None,
        }
    }

    pub fn as_str(&self) -> (r: Option<&str>)
        ensures
            match r {
                Some(s) => self.view_json().as_str() == Some(s@),
                None => self.view_json().as_str() is None,
            },
    {
        match self {
            Json::Str(s) => Some(s.as_str()),
            _ => None,
        }
    }

    pub fn as_u64(&self) -> (r: Option<u64>)
        ensures
            r == self.view_json().as_u64(),
    {
        match self {
            Json::Number(JsonNumber::PosInt(n)) => Some(*n),
            _ => None,
        }
    }

    pub fn as_i64(&self) -> (r: Option<i64>)
        ensures
            r == self.view_json().as_i64(),
    {
        match self {
            Json::Number(JsonNumber::PosInt(n)) => if *n <= 0x7fff_ffff_ffff_ffff {
                Some(*n as i64)
            } else {
                None
            },
            Json::Number(JsonNumber::NegInt(n)) => Some(*n),
            _ => None,
        }
    }

    pub fn as_bool(&self) -> (r: Option<bool>)
        ensures
            r == self.view_json().as_bool(),
    {
        match self {
            Json::Bool(b) => Some(*b),
            _ => None,
        }
    }

    pub fn as_array(&self) -> (r: Option<&Vec<Json>>)
        ensures
            match r {
                Some(a) => self.view_json().as_array() == Some(view_items(a@)),
                None => self.view_json().as_array() is None,
            },
    {
        match self {
            Json::Array(a) => Some(a),
            _ => None,
        }
    }

    /// The string at `key` of an object, if there is one.
    pub fn get_str(&self, key: &str) -> (r: Option<&str>)
        ensures
            match r {
                Some(s) => get_str(self.view_json(), key@) == Some(s@),
                None => get_str(self.view_json(), key@) is None,
            },
    {
        match self.get(key) {
            Some(v) => v.as_str(),
            None => None,
        }
    }

    /// A string value.
    pub fn string(s: &str) -> (r: Json)
        ensures
            r.view_json() == JsonValue::Str(s@),
    {
        Json::Str(s.to_owned())
    }
}

/// The content of a parse outcome: the value, or the parser's message.
pub open spec fn parse_outcome(p: Result<Json, String>) -> Result<JsonValue, Seq<char>> {
    match p {
        Ok(v) => Ok(v.view_json()),
        Err(m) => Err(m@),
    }
}

/// An object with one field.
pub fn object1(k: &str, v: Json) -> (r: Json)
    ensures
        r.view_json() == JsonValue::Object(seq![(k@, v.view_json())]),
{
    let mut f: Vec<(String, Json)> = Vec::new();
    f.push((k.to_owned(), v));
    proof {
        lemma_view_fields_len(f@);
        assert(view_fields(f@) =~= seq![(k@, v.view_json())]);
    }
    Json::Object(f)
}

/// An object with two fields, in order.
pub fn object2(k1: &str, v1: Json, k2: &str, v2: Json) -> (r: Json)
    ensures
        r.view_json() == JsonValue::Object(seq![(k1@, v1.view_json()), (k2@, v2.view_json())]),
{
    let mut f: Vec<(String, Json)> = Vec::new();
    f.push((k1.to_owned(), v1));
    f.push((k2.to_owned(), v2));
    proof {
        lemma_view_fields_len(f@);
        assert(view_fields(f@) =~= seq![(k1@, v1.view_json()), (k2@, v2.view_json())]);
    }
    Json::Object(f)
}

/// An object with three fields, in order.
pub fn object3(k1: &str, v1: Json, k2: &str, v2: Json, k3: &str, v3: Json) -> (r: Json)
    ensures
        r.view_json() == JsonValue::Object(
            seq![(k1@, v1.view_json()), (k2@, v2.view_json()), (k3@, v3.view_json())],
        ),
{
    let mut f: Vec<(String, Json)> = Vec::new();
    f.push((k1.to_owned(), v1));
    f.push((k2.to_owned(), v2));
    f.push((k3.to_owned(), v3));
    proof {
        lemma_view_fields_len(f@);
        assert(view_fields(f@) =~= seq![
            (k1@, v1.view_json()),
            (k2@, v2.view_json()),
            (k3@, v3.view_json()),
        ]);
    }
    Json::Object(f)
}

/// An object with the given fields, in order.
pub fn object_of(fields: Vec<(String, Json)>) -> (r: Json)
    ensures
        r.view_json() == JsonValue::Object(view_fields(fields@)),
        view_fields(fields@).len() == fields@.len(),
        forall|i: int|
            0 <= i < fields@.len() ==> #[trigger] view_fields(fields@)[i] == (
                fields@[i].0@,
                fields@[i].1.view_json(),
            ),
{
    proof {
        lemma_view_fields_len(fields@);
    }
    Json::Object(fields)
}

} // verus!
