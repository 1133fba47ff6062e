//! A JSON document model: the values that engine settings are stored as.
//!
//! Objects are lists of entries; a key is looked up at its first entry, and an insert
//! replaces the value of that entry or appends a new one, so a document built by
//! inserts never holds a key twice.
use vstd::prelude::*;

verus! {

broadcast use vstd::std_specs::vec::group_vec_axioms;

/// A JSON number as it was written: a non-negative integer, a negative integer, or a
/// floating-point number given by its IEEE-754 bit pattern.
#[derive(Debug, Clone, Copy, PartialEq, Eq, Structural)]
pub enum JsonNumber {
    PosInt(u64),
    NegInt(i64),
    Float(u64),
}

/// A JSON value.
#[derive(Debug)]
pub enum JsonValue {
    Null,
    Bool(bool),
    Number(JsonNumber),
    String(String),
    Array(Vec<JsonValue>),
    Object(Vec<(String, JsonValue)>),
}

/// The mathematical content of a `JsonValue`.
pub enum JsonData {
    Null,
    Bool(bool),
    Number(JsonNumber),
    Str(Seq<char>),
    Array(Seq<JsonData>),
    Object(Seq<(Seq<char>, JsonData)>),
}

/// The contents of the elements of an array.
pub open spec fn data_seq(v: Seq<JsonValue>) -> Seq<JsonData>
    decreases v,
{
    if v.len() == 0 {
        Seq::empty()
    } else {
        seq![v[0].data()] + data_seq(v.drop_first())
    }
}

/// The contents of the entries of an object.
pub open spec fn data_entries(v: Seq<(String, JsonValue)>) -> Seq<(Seq<char>, JsonData)>
    decreases v,
{
    if v.len() == 0 {
        Seq::empty()
    } else {
        seq![(v[0].0@, v[0].1.data())] + data_entries(v.drop_first())
    }
}

impl JsonValue {
    /// The content of this value.
    pub open spec fn data(&self) -> JsonData
        decreases self,
    {
        match self {
            JsonValue::Null => JsonData::Null,
            JsonValue::Bool(b) => JsonData::Bool(*b),
            JsonValue::Number(n) => JsonData::Number(*n),
            JsonValue::String(s) => JsonData::Str(s@),
            JsonValue::Array(v) => JsonData::Array(data_seq(v@)),
            JsonValue::Object(v) => JsonData::Object(data_entries(v@)),
        }
    }
}

pub proof fn lemma_data_seq(v: Seq<JsonValue>)
    ensures
        data_seq(v).len() == v.len(),
        forall|i: int| 0 <= i < v.len() ==> #[trigger] data_seq(v)[i] == v[i].data(),
    decreases v.len(),
{
    if v.len() > 0 {
        lemma_data_seq(v.drop_first());
        assert forall|i: int| 0 <= i < v.len() implies #[trigger] data_seq(v)[i] == v[i].data() by {
            if i > 0 {
                assert(data_seq(v)[i] == data_seq(v.drop_first())[i - 1]);
            }
        }
    }
}

pub proof fn lemma_data_entries(v: Seq<(String, JsonValue)>)
    ensures
        data_entries(v).len() == v.len(),
        forall|i: int|
            0 <= i < v.len() ==> #[trigger] data_entries(v)[i] == (v[i].0@, v[i].1.data()),
    decreases v.len(),
{
    if v.len() > 0 {
        lemma_data_entries(v.drop_first());
        assert forall|i: int| 0 <= i < v.len() implies #[trigger] data_entries(v)[i] == (
            v[i].0@,
            v[i].1.data(),
        ) by {
            if i > 0 {
                assert(data_entries(v)[i] == data_entries(v.drop_first())[i - 1]);
            }
        }
    }
}

/// Two entry lists with the same keys and values (by content) have the same content.
pub proof fn lemma_data_entries_ext(a: Seq<(String, JsonValue)>, b: Seq<(String, JsonValue)>)
    requires
        a.len() == b.len(),
        forall|i: int| 0 <= i < a.len() ==> (#[trigger] a[i]).0@ == b[i].0@ && a[i].1.data() == b[i].1.data(),
    ensures
        data_entries(a) == data_entries(b),
{
    lemma_data_entries(a);
    lemma_data_entries(b);
    assert(data_entries(a) =~= data_entries(b));
}

/// Two element lists with the same elements (by content) have the same content.
pub proof fn lemma_data_seq_ext(a: Seq<JsonValue>, b: Seq<JsonValue>)
    requires
        a.len() == b.len(),
        forall|i: int| 0 <= i < a.len() ==> (#[trigger] a[i]).data() == b[i].data(),
    ensures
        data_seq(a) == data_seq(b),
{
    lemma_data_seq(a);
    lemma_data_seq(b);
    assert(data_seq(a) =~= data_seq(b));
}

/// The value of the first entry whose key is `k`.
pub open spec fn lookup(e: Seq<(Seq<char>, JsonData)>, k: Seq<char>) -> Option<JsonData>
    decreases e.len(),
{
    if e.len() == 0 {
        None
    } else if e[0].0 == k {
        Some(e[0].1)
    } else {
        lookup(e.drop_first(), k)
    }
}

/// `e` with the value of key `k` set to `v`: the first entry with that key gets the new
/// value, or a new entry is appended when there is none.
pub open spec fn insert_entry(e: Seq<(Seq<char>, JsonData)>, k: Seq<char>, v: JsonData) -> Seq<
    (Seq<char>, JsonData),
>
    decreases e.len(),
{
    if e.len() == 0 {
        seq![(k, v)]
    } else if e[0].0 == k {
        seq![(k, v)] + e.drop_first()
    } else {
        seq![e[0]] + insert_entry(e.drop_first(), k, v)
    }
}

/// What an insert does to a lookup: the inserted key now has the inserted value, and
/// every other key keeps its value.
pub proof fn lemma_lookup_insert(e: Seq<(Seq<char>, JsonData)>, k: Seq<char>, v: JsonData, k2: Seq<char>)
    ensures
        lookup(insert_entry(e, k, v), k2) == (if k2 == k {
            Some(v)
        } else {
            lookup(e, k2)
        }),
    decreases e.len(),
{
    let r = insert_entry(e, k, v);
    if e.len() == 0 {
        assert(r.drop_first() =~= Seq::<(Seq<char>, JsonData)>::empty());
    } else if e[0].0 == k {
        assert(r.drop_first() =~= e.drop_first());
    } else {
        assert(r.drop_first() =~= insert_entry(e.drop_first(), k, v));
        lemma_lookup_insert(e.drop_first(), k, v, k2);
    }
}

/// `lookup` by first matching index.
proof fn lemma_lookup_at(e: Seq<(Seq<char>, JsonData)>, k: Seq<char>, i: int)
    requires
        0 <= i <= e.len(),
        forall|j: int| 0 <= j < i ==> (#[trigger] e[j]).0 != k,
    ensures
        i == e.len() ==> lookup(e, k) is None,
        i < e.len() && e[i].0 == k ==> lookup(e, k) == Some(e[i].1),
        i < e.len() && e[i].0 == k ==> insert_entry(e, k, e[i].1) == e,
    decreases i,
{
    if i > 0 {
        assert forall|j: int| 0 <= j < i - 1 implies (#[trigger] e.drop_first()[j]).0 != k by {
            assert(e.drop_first()[j] == e[j + 1]);
        }
        lemma_lookup_at(e.drop_first(), k, i - 1);
        if i < e.len() && e[i].0 == k {
            assert(seq![e[0]] + e.drop_first() =~= e);
        }
    } else if e.len() > 0 && e[0].0 == k {
        assert(seq![(k, e[0].1)] + e.drop_first() =~= e);
    }
}

/// `insert_entry` by first matching index.
proof fn lemma_insert_at(e: Seq<(Seq<char>, JsonData)>, k: Seq<char>, v: JsonData, i: int)
    requires
        0 <= i <= e.len(),
        forall|j: int| 0 <= j < i ==> (#[trigger] e[j]).0 != k,
        i < e.len() ==> e[i].0 == k,
    ensures
        insert_entry(e, k, v) == (if i == e.len() {
            e.push((k, v))
        } else {
            e.update(i, (k, v))
        }),
    decreases i,
{
    if i > 0 {
        assert forall|j: int| 0 <= j < i - 1 implies (#[trigger] e.drop_first()[j]).0 != k by {
            assert(e.drop_first()[j] == e[j + 1]);
        }
        lemma_insert_at(e.drop_first(), k, v, i - 1);
        if i == e.len() {
            assert(seq![e[0]] + e.drop_first().push((k, v)) =~= e.push((k, v)));
        } else {
            assert(seq![e[0]] + e.drop_first().update(i - 1, (k, v)) =~= e.update(i, (k, v)));
        }
    } else if e.len() == 0 {
        assert(seq![(k, v)] =~= e.push((k, v)));
    } else {
        assert(seq![(k, v)] + e.drop_first() =~= e.update(0, (k, v)));
    }
}

/// `JsonNumber::as_u64`: a non-negative integer.
pub open spec fn number_as_u64(n: JsonNumber) -> Option<u64> {
    match n {
        JsonNumber::PosInt(u) => Some(u),
        _ => None,
    }
}

/// `Value::as_u64`.
pub open spec fn data_as_u64(d: JsonData) -> Option<u64> {
    match d {
        JsonData::Number(n) => number_as_u64(n),
        _ => None,
    }
}

/// `Value::as_str`.
pub open spec fn data_as_str(d: JsonData) -> Option<Seq<char>> {
    match d {
        JsonData::Str(s) => Some(s),
        _ => None,
    }
}

/// `Value::as_bool`.
pub open spec fn data_as_bool(d: JsonData) -> Option<bool> {
    match d {
        JsonData::Bool(b) => Some(b),
        _ => None,
    }
}

/// `Value::as_object`.
pub open spec fn data_as_object(d: JsonData) -> Option<Seq<(Seq<char>, JsonData)>> {
    match d {
        JsonData::Object(e) => Some(e),
        _ => None,
    }
}

/// `get(key)` on an object value: the value of that key, when `d` is an object that has it.
pub open spec fn field(d: JsonData, key: Seq<char>) -> Option<JsonData> {
    match d {
        JsonData::Object(e) => lookup(e, key),
        _ => None,
    }
}

/// The empty object.
pub open spec fn empty_object() -> JsonData {
    JsonData::Object(Seq::empty())
}

impl JsonValue {
    /// `Value::is_object`.
    pub fn is_object(&self) -> (b: bool)
        ensures
            b == (self.data() is Object),
    {
        match self {
            JsonValue::Object(_) => true,
            _ => false,
        }
    }

    /// `Value::as_str`.
    pub fn as_str(&self) -> (r: Option<&String>)
        ensures
            match r {
                Some(s) => data_as_str(self.data()) == Some(s@),
                None => data_as_str(self.data()) is None,
            },
    {
        match self {
            JsonValue::String(s) => Some(s),
            _ => None,
        }
    }

    /// `Value::as_bool`.
    pub fn as_bool(&self) -> (r: Option<bool>)
        ensures
            r == data_as_bool(self.data()),
    {
        match self {
            JsonValue::Bool(b) => Some(*b),
            _ => None,
        }
    }

    /// `Value::as_u64`.
    pub fn as_u64(&self) -> (r: Option<u64>)
        ensures
            r == data_as_u64(self.data()),
    {
        match self {
            JsonValue::Number(JsonNumber::PosInt(u)) => Some(*u),
            _ => None,
        }
    }

    /// `Value::as_object`.
    pub fn as_object(&self) -> (r: Option<&Vec<(String, JsonValue)>>)
        ensures
            match r {
                Some(e) => data_as_object(self.data()) == Some(data_entries(e@)),
                None => data_as_object(self.data()) is None,
            },
    {
        match self {
            JsonValue::Object(e) => Some(e),
            _ => None,
        }
    }

    /// `Value::Object(Map::new())`.
    pub fn new_object() -> (r: JsonValue)
        ensures
            r.data() == empty_object(),
            r is Object,
    {
        let r = JsonValue::Object(Vec::new());
        proof {
            assert(data_entries(Seq::<(String, JsonValue)>::empty()) =~= Seq::<(Seq<char>, JsonData)>::empty());
        }
        r
    }

    /// A copy of this value.
    pub fn deep_clone(&self) -> (r: JsonValue)
        ensures
            r.data() == self.data(),
        decreases self,
    {
        match self {
            JsonValue::Null => JsonValue::Null,
            JsonValue::Bool(b) => JsonValue::Bool(*b),
            JsonValue::Number(n) => JsonValue::Number(*n),
            JsonValue::String(s) => JsonValue::String(s.clone()),
            JsonValue::Array(v) => {
                let mut out: Vec<JsonValue> = Vec::new();
                let mut i: usize = 0;
                while i < v.len()
                    invariant
                        *self == JsonValue::Array(*v),
                        i <= v@.len(),
                        out@.len() == i,
                        forall|j: int| 0 <= j < i ==> (#[trigger] out@[j]).data() == v@[j].data(),
                    decreases v@.len() - i,
                {
                    proof {
                        assert(decreases_to!(*self => self->Array_0));
                        assert(decreases_to!(*v => v[i as int]));
                    }
                    let c = v[i].deep_clone();
                    out.push(c);
                    i = i + 1;
                }
                proof {
                    lemma_data_seq_ext(out@, v@);
                }
                JsonValue::Array(out)
            },
            JsonValue::Object(v) => {
                let mut out: Vec<(String, JsonValue)> = Vec::new();
                let mut i: usize = 0;
                while i < v.len()
                    invariant
                        *self == JsonValue::Object(*v),
                        i <= v@.len(),
                        out@.len() == i,
                        forall|j: int|
                            0 <= j < i ==> (#[trigger] out@[j]).0@ == v@[j].0@ && out@[j].1.data()
                                == v@[j].1.data(),
                    decreases v@.len() - i,
                {
                    proof {
                        assert(decreases_to!(*self => self->Object_0));
                        assert(decreases_to!(*v => v[i as int]));
                        assert(decreases_to!(v[i as int] => v[i as int].1));
                    }
                    let c = v[i].1.deep_clone();
                    out.push((v[i].0.clone(), c));
                    i = i + 1;
                }
                proof {
                    lemma_data_entries_ext(out@, v@);
                }
                JsonValue::Object(out)
            },
        }
    }
}

/// The position of the first entry whose key is `key`, or the length when there is none.
fn first_index(e: &Vec<(String, JsonValue)>, key: &str) -> (i: usize)
    ensures
        i <= e@.len(),
        forall|j: int| 0 <= j < i ==> (#[trigger] e@[j]).0@ != key@,
        i < e@.len() ==> e@[i as int].0@ == key@,
{
    let mut i: usize = 0;
    while i < e.len()
        invariant
            i <= e@.len(),
            forall|j: int| 0 <= j < i ==> (#[trigger] e@[j]).0@ != key@,
        decreases e@.len() - i,
    {
        if crate::text::str_eq(e[i].0.as_str(), key) {
            return i;
        }
        i = i + 1;
    }
    i
}

/// `Map::get`: the value of `key` in the entries `e`.
pub fn object_get<'a>(e: &'a Vec<(String, JsonValue)>, key: &str) -> (r: Option<&'a JsonValue>)
    ensures
        match r {
            Some(v) => lookup(data_entries(e@), key@) == Some(v.data()),
            None => lookup(data_entries(e@), key@) is None,
        },
{
    let i = first_index(e, key);
    proof {
        lemma_data_entries(e@);
        assert forall|j: int| 0 <= j < i implies (#[trigger] data_entries(e@)[j]).0 != key@ by {}
        lemma_lookup_at(data_entries(e@), key@, i as int);
    }
    if i < e.len() {
        Some(&e[i].1)
    } else {
        None
    }
}

/// `Map::insert`: sets the value of `key` in the entries `e`.
pub fn object_insert(e: &mut Vec<(String, JsonValue)>, key: String, value: JsonValue)
    ensures
        data_entries(final(e)@) == insert_entry(data_entries(old(e)@), key@, value.data()),
{
    let i = first_index(e, key.as_str());
    let ghost k = key@;
    let ghost vd = value.data();
    let ghost before = e@;
    proof {
        lemma_data_entries(before);
        assert forall|j: int| 0 <= j < i implies (#[trigger] data_entries(before)[j]).0 != k by {}
        lemma_insert_at(data_entries(before), k, vd, i as int);
    }
    if i < e.len() {
        e.set(i, (key, value));
        proof {
            lemma_data_entries(e@);
            assert(data_entries(e@) =~= data_entries(before).update(i as int, (k, vd)));
        }
    } else {
        e.push((key, value));
        proof {
            lemma_data_entries(e@);
            assert(data_entries(e@) =~= data_entries(before).push((k, vd)));
        }
    }
}

} // verus!
