//! JSON values as the audit log reads them: tool arguments come in as a JSON
//! object and summaries go out as JSON text.

use serde_json::Value;
use vstd::prelude::*;

verus! {

/// `serde_json::Number`, carried through unread.
#[verifier::external_type_specification]
#[verifier::external_body]
pub struct ExJsonNumber(serde_json::Number);

/// `serde_json::Value`, built only to be written out.
#[verifier::external_type_specification]
#[verifier::external_body]
pub struct ExJsonValue(serde_json::Value);

/// A JSON number: an integer held exactly, or any other number held as it was
/// given.
#[derive(Debug)]
pub enum JsonNumber {
    /// A non-negative integer.
    PosInt(u64),
    /// A negative integer.
    NegInt(i64),
    /// A number that is not an integer.
    Float(serde_json::Number),
}

/// A JSON value.
#[derive(Debug)]
pub enum JsonValue {
    Null,
    Bool(bool),
    Number(JsonNumber),
    String(String),
    Array(Vec<JsonValue>),
    Object(JsonMap),
}

/// A JSON object: its members in order. A lookup finds the first member with
/// the key, and `insert` replaces that member, so a map built by `insert` holds
/// each key once.
#[derive(Debug)]
pub struct JsonMap {
    pub entries: Vec<(String, JsonValue)>,
}

/// What a JSON value holds, with every string taken by its characters.
pub enum JsonData {
    Null,
    Bool(bool),
    Number(JsonNumber),
    Str(Seq<char>),
    Array(Seq<JsonData>),
    Object(Seq<(Seq<char>, JsonData)>),
}

impl JsonValue {
    /// What this value holds.
    pub open spec fn data(self) -> JsonData
        decreases self,
    {
        match self {
            JsonValue::Null => JsonData::Null,
            JsonValue::Bool(b) => JsonData::Bool(b),
            JsonValue::Number(n) => JsonData::Number(n),
            JsonValue::String(s) => JsonData::Str(s@),
            JsonValue::Array(items) => JsonData::Array(
                Seq::new(
                    items@.len(),
                    |i: int|
                        if 0 <= i < items@.len() {
                            items@[i].data()
                        } else {
                            JsonData::Null
                        },
                ),
            ),
            JsonValue::Object(m) => JsonData::Object(
                Seq::new(
                    m.entries@.len(),
                    |i: int|
                        if 0 <= i < m.entries@.len() {
                            (m.entries@[i].0@, m.entries@[i].1.data())
                        } else {
                            (Seq::empty(), JsonData::Null)
                        },
                ),
            ),
        }
    }
}

impl JsonMap {
    /// The members of this object, in order.
    pub open spec fn data(self) -> Seq<(Seq<char>, JsonData)> {
        Seq::new(self.entries@.len(), |i: int| (self.entries@[i].0@, self.entries@[i].1.data()))
    }
}

/// The first member of `members` with key `key` is at index `i`.
pub open spec fn first_key_at(members: Seq<(Seq<char>, JsonData)>, key: Seq<char>, i: int) -> bool {
    &&& 0 <= i < members.len()
    &&& members[i].0 == key
    &&& forall|j: int| 0 <= j < i ==> #[trigger] members[j].0 != key
}

/// The value of the first member with key `key`, if any.
pub open spec fn lookup(members: Seq<(Seq<char>, JsonData)>, key: Seq<char>) -> Option<JsonData> {
    if exists|i: int| first_key_at(members, key, i) {
        Some(members[choose|i: int| first_key_at(members, key, i)].1)
    } else {
        None
    }
}

/// The first index with a given key is unique.
pub proof fn lemma_first_key_unique(
    members: Seq<(Seq<char>, JsonData)>,
    key: Seq<char>,
    i: int,
    j: int,
)
    requires
        first_key_at(members, key, i),
        first_key_at(members, key, j),
    ensures
        i == j,
{
    if i < j {
        assert(members[i].0 != key);
    } else if j < i {
        assert(members[j].0 != key);
    }
}

/// An object of which no member has key `key` has no value for it.
pub proof fn lemma_lookup_absent(members: Seq<(Seq<char>, JsonData)>, key: Seq<char>)
    requires
        forall|j: int| 0 <= j < members.len() ==> #[trigger] members[j].0 != key,
    ensures
        lookup(members, key) is None,
{
}

/// An object whose first member with key `key` is at `i` has that member's
/// value for it.
pub proof fn lemma_lookup_found(members: Seq<(Seq<char>, JsonData)>, key: Seq<char>, i: int)
    requires
        first_key_at(members, key, i),
    ensures
        lookup(members, key) == Some(members[i].1),
{
    let c = choose|c: int| first_key_at(members, key, c);
    lemma_first_key_unique(members, key, i, c);
}

/// `serde_json::Number`'s derived `clone`: the number it returns is the one it
/// was given.
#[verifier::external_body]
fn json_number_clone(n: &serde_json::Number) -> (r: serde_json::Number)
    ensures
        r == *n,
{
    n.clone()
}

impl JsonNumber {
    /// A copy of this number.
    pub fn duplicate(&self) -> (r: JsonNumber)
        ensures
            r == *self,
    {
        match self {
            JsonNumber::PosInt(n) => JsonNumber::PosInt(*n),
            JsonNumber::NegInt(n) => JsonNumber::NegInt(*n),
            JsonNumber::Float(n) => JsonNumber::Float(json_number_clone(n)),
        }
    }
}

impl JsonValue {
    /// A copy of this value, holding the same data.
    pub fn duplicate(&self) -> (r: JsonValue)
        ensures
            r.data() == self.data(),
        decreases self,
    {
        match self {
            JsonValue::Null => JsonValue::Null,
            JsonValue::Bool(b) => JsonValue::Bool(*b),
            JsonValue::Number(n) => JsonValue::Number(n.duplicate()),
            JsonValue::String(s) => JsonValue::String(s.clone()),
            JsonValue::Array(items) => {
                let mut out: Vec<JsonValue> = Vec::new();
                let mut i: usize = 0;
                while i < items.len()
                    invariant
                        *self == JsonValue::Array(*items),
                        i <= items@.len(),
                        out@.len() == i,
                        forall|k: int| 0 <= k < i ==> #[trigger] out@[k].data() == items@[k].data(),
                    decreases items@.len() - i,
                {
                    proof {
                        // the element is below the array, which is below `self`
                        assert(decreases_to!(self->Array_0 => self->Array_0[i as int]));
                        assert(decreases_to!(*self => self->Array_0));
                    }
                    let item = items[i].duplicate();
                    out.push(item);
                    i = i + 1;
                }
                let r = JsonValue::Array(out);
                assert(forall|k: int|
                    0 <= k < out@.len() ==> #[trigger] r.data()->Array_0[k] == out@[k].data()
                        && self.data()->Array_0[k] == items@[k].data());
                assert(r.data()->Array_0 =~= self.data()->Array_0);
                r
            },
            JsonValue::Object(m) => {
                let m2 = m.duplicate();
                let r = JsonValue::Object(m2);
                assert(r.data()->Object_0 =~= m2.data());
                assert(self.data()->Object_0 =~= m.data());
                r
            },
        }
    }
}

impl JsonMap {
    /// An object with no members.
    pub fn new() -> (m: JsonMap)
        ensures
            m.data() == Seq::<(Seq<char>, JsonData)>::empty(),
    {
        let m = JsonMap { entries: Vec::new() };
        assert(m.data() =~= Seq::<(Seq<char>, JsonData)>::empty());
        m
    }

    /// A copy of this object, holding the same members.
    pub fn duplicate(&self) -> (r: JsonMap)
        ensures
            r.data() == self.data(),
        decreases self,
    {
        let mut out: Vec<(String, JsonValue)> = Vec::new();
        let mut i: usize = 0;
        while i < self.entries.len()
            invariant
                i <= self.entries@.len(),
                out@.len() == i,
                forall|k: int|
                    0 <= k < i ==> #[trigger] out@[k].0@ == self.entries@[k].0@ && out@[k].1.data()
                        == self.entries@[k].1.data(),
            decreases self.entries@.len() - i,
        {
            let key = self.entries[i].0.clone();
            let value = self.entries[i].1.duplicate();
            out.push((key, value));
            i = i + 1;
        }
        let r = JsonMap { entries: out };
        assert(r.data() =~= self.data());
        r
    }

    /// The value of the first member with key `key`.
    pub fn get(&self, key: &str) -> (r: Option<&JsonValue>)
        ensures
            match r {
                Some(v) => lookup(self.data(), key@) == Some(v.data()),
                None => lookup(self.data(), key@) is None,
            },
    {
        let wanted = key.to_owned();
        let mut i: usize = 0;
        while i < self.entries.len()
            invariant
                i <= self.entries@.len(),
                wanted@ == key@,
                forall|j: int| 0 <= j < i ==> #[trigger] self.data()[j].0 != key@,
            decreases self.entries@.len() - i,
        {
            if self.entries[i].0 == wanted {
                proof {
                    lemma_lookup_found(self.data(), key@, i as int);
                }
                return Some(&self.entries[i].1);
            }
            i = i + 1;
        }
        proof {
            lemma_lookup_absent(self.data(), key@);
        }
        None
    }

    /// Sets the member `key` to `value`: the first member with that key is
    /// replaced and its old value returned, or the member is appended.
    pub fn insert(&mut self, key: String, value: JsonValue) -> (r: Option<JsonValue>)
        ensures
            final(self).data() == set_member(old(self).data(), key@, value.data()),
            match r {
                Some(old_value) => lookup(old(self).data(), key@) == Some(old_value.data()),
                None => lookup(old(self).data(), key@) is None,
            },
    {
        let mut i: usize = 0;
        while i < self.entries.len()
            invariant
                i <= self.entries@.len(),
                self.entries@ == old(self).entries@,
                forall|j: int| 0 <= j < i ==> #[trigger] self.data()[j].0 != key@,
            decreases self.entries@.len() - i,
        {
            if self.entries[i].0 == key {
                let ghost before = self.data();
                let ghost kv = key@;
                let ghost vd = value.data();
                let old_entry = self.entries.remove(i);
                self.entries.insert(i, (key, value));
                proof {
                    assert(first_key_at(before, kv, i as int));
                    lemma_lookup_found(before, kv, i as int);
                    lemma_first_key_unique(before, kv, i as int, choose|c: int| first_key_at(before, kv, c));
                    assert(self.data() =~= set_member(before, kv, vd));
                }
                return Some(old_entry.1);
            }
            i = i + 1;
        }
        proof {
            lemma_lookup_absent(self.data(), key@);
            lemma_no_first_key(self.data(), key@);
        }
        let ghost before = self.data();
        let ghost kv = key@;
        let ghost vd = value.data();
        self.entries.push((key, value));
        assert(self.data() =~= set_member(before, kv, vd));
        None
    }
}

/// The members after setting `key` to `value`: the first member with that key
/// takes the new value, or the member is appended.
pub open spec fn set_member(
    members: Seq<(Seq<char>, JsonData)>,
    key: Seq<char>,
    value: JsonData,
) -> Seq<(Seq<char>, JsonData)> {
    if exists|i: int| first_key_at(members, key, i) {
        members.update(choose|i: int| first_key_at(members, key, i), (key, value))
    } else {
        members.push((key, value))
    }
}

/// A key that occurs in an object occurs first somewhere.
pub proof fn lemma_first_key_exists(members: Seq<(Seq<char>, JsonData)>, key: Seq<char>, j: int)
    requires
        0 <= j < members.len(),
        members[j].0 == key,
    ensures
        exists|i: int| first_key_at(members, key, i),
    decreases j,
{
    if exists|k: int| 0 <= k < j && #[trigger] members[k].0 == key {
        let k = choose|k: int| 0 <= k < j && #[trigger] members[k].0 == key;
        lemma_first_key_exists(members, key, k);
    } else {
        assert(first_key_at(members, key, j));
    }
}

/// Without a first member with key `key`, no member has that key.
pub proof fn lemma_no_first_key(members: Seq<(Seq<char>, JsonData)>, key: Seq<char>)
    requires
        !(exists|i: int| first_key_at(members, key, i)),
    ensures
        forall|j: int| 0 <= j < members.len() ==> #[trigger] members[j].0 != key,
{
    assert forall|j: int| 0 <= j < members.len() implies #[trigger] members[j].0 != key by {
        if members[j].0 == key {
            lemma_first_key_exists(members, key, j);
        }
    }
}

/// What a read gives back of a write: after setting `key` to `value`, a lookup
/// of `key` finds `value`, and a lookup of any other key finds what it found
/// before.
pub proof fn lemma_lookup_after_set(
    members: Seq<(Seq<char>, JsonData)>,
    key: Seq<char>,
    value: JsonData,
    other: Seq<char>,
)
    ensures
        lookup(set_member(members, key, value), key) == Some(value),
        other != key ==> lookup(set_member(members, key, value), other) == lookup(members, other),
{
    let after = set_member(members, key, value);
    if exists|i: int| first_key_at(members, key, i) {
        let i = choose|i: int| first_key_at(members, key, i);
        assert(first_key_at(after, key, i));
        lemma_lookup_found(after, key, i);
    } else {
        lemma_no_first_key(members, key);
        assert(first_key_at(after, key, members.len() as int));
        lemma_lookup_found(after, key, members.len() as int);
    }
    if other != key {
        assert forall|m: int| first_key_at(after, other, m) <==> first_key_at(members, other, m) by {
            if first_key_at(after, other, m) {
                assert(m < members.len());
                assert forall|j: int| 0 <= j < m implies #[trigger] members[j].0 != other by {
                    assert(after[j].0 != other);
                }
            }
            if first_key_at(members, other, m) {
                assert forall|j: int| 0 <= j < m implies #[trigger] after[j].0 != other by {
                    assert(members[j].0 != other);
                }
            }
        }
        if exists|m: int| first_key_at(members, other, m) {
            let m = choose|m: int| first_key_at(members, other, m);
            lemma_lookup_found(members, other, m);
            lemma_lookup_found(after, other, m);
        }
    }
}

/// The compact JSON text that `serde_json` writes for a value holding `v`.
pub uninterp spec fn json_text(v: JsonData) -> Seq<char>;

/// Builds, with `serde_json`'s own constructors (`Number::from` for the
/// integers, `Map`'s `FromIterator` for objects), the `serde_json::Value` that
/// `v` stands for, member for member and element for element. Nothing is
/// claimed of the value built.
#[verifier::external_body]
fn to_serde_value(v: &JsonValue) -> Value {
    match v {
        JsonValue::Null => Value::Null,
        JsonValue::Bool(b) => Value::Bool(*b),
        JsonValue::Number(JsonNumber::PosInt(n)) => Value::Number((*n).into()),
        JsonValue::Number(JsonNumber::NegInt(n)) => Value::Number((*n).into()),
        JsonValue::Number(JsonNumber::Float(n)) => Value::Number(n.clone()),
        JsonValue::String(s) => Value::String(s.clone()),
        JsonValue::Array(items) => Value::Array(items.iter().map(to_serde_value).collect()),
        JsonValue::Object(m) => Value::Object(
            m.entries.iter().map(|(k, x)| (k.clone(), to_serde_value(x))).collect(),
        ),
    }
}

/// `serde_json::to_string` on the `serde_json::Value` that `v` stands for: its
/// compact JSON text, named by `json_text`, a function of what `v` holds. Its
/// documentation says serialization fails only where a `Serialize` impl fails
/// or a map has non-string keys; `Value`'s impl never fails and its maps have
/// string keys, so the text is always there. Nothing more is claimed of it.
#[verifier::external_body]
pub(crate) fn to_json_string(v: &JsonValue) -> (r: Option<String>)
    ensures
        r is Some,
        r.unwrap()@ == json_text(v.data()),
{
    serde_json::to_string(&to_serde_value(v)).ok()
}

} // verus!
