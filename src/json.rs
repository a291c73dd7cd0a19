//! A JSON value of the library's own, with lookups over its spec model.
use vstd::prelude::*;

verus! {

/// A JSON value. A number is held as a signed integer when it is one, and as
/// its decimal text otherwise. An object keeps its entries in order; where a
/// key repeats, the first entry is the member and the others are shadowed.
#[derive(Debug)]
pub enum Json {
    Null,
    Bool(bool),
    Int(i64),
    Decimal(String),
    Str(String),
    Array(Vec<Json>),
    Object(Vec<(String, Json)>),
}

/// The value under the first entry of `entries` whose key is `key`.
pub open spec fn lookup(entries: Seq<(String, Json)>, key: Seq<char>) -> Option<Json>
    decreases entries.len(),
{
    if entries.len() == 0 {
        None
    } else if entries[0].0@ == key {
        Some(entries[0].1)
    } else {
        lookup(entries.drop_first(), key)
    }
}

/// The member `key` of `v`, when `v` is an object that has it.
pub open spec fn member(v: Json, key: Seq<char>) -> Option<Json> {
    match v {
        Json::Object(entries) => lookup(entries@, key),
        _ => None,
    }
}

/// The text of `v`, when `v` is a string.
pub open spec fn text_of(v: Option<Json>) -> Option<Seq<char>> {
    match v {
        Some(Json::Str(s)) => Some(s@),
        _ => None,
    }
}

/// The items of `v`, when it is an array.
pub open spec fn elements(v: Option<Json>) -> Option<Seq<Json>> {
    match v {
        Some(Json::Array(items)) => Some(items@),
        _ => None,
    }
}

/// `v` has no member but under one of the keys `ks`.
pub open spec fn only_keys(v: Json, ks: Seq<Seq<char>>) -> bool {
    forall|k: Seq<char>| #[trigger] member(v, k) is Some ==> ks.contains(k)
}

/// A key that is found is the key of some entry.
pub proof fn lemma_found_key(s: Seq<(String, Json)>, k: Seq<char>)
    ensures
        lookup(s, k) is Some ==> exists|i: int| 0 <= i < s.len() && (#[trigger] s[i]).0@ == k,
    decreases s.len(),
{
    if s.len() > 0 && s[0].0@ != k {
        lemma_found_key(s.drop_first(), k);
        if lookup(s, k) is Some {
            let i = choose|i: int| 0 <= i < s.drop_first().len() && (#[trigger] s.drop_first()[i]).0@ == k;
            assert(s[i + 1] == s.drop_first()[i]);
        }
    } else if s.len() > 0 {
        assert(s[0].0@ == k);
    }
}

/// Entries whose keys are all among `ks` make an object with no other member.
pub proof fn lemma_only_keys(entries: Seq<(String, Json)>, ks: Seq<Seq<char>>)
    requires
        forall|i: int| 0 <= i < entries.len() ==> ks.contains((#[trigger] entries[i]).0@),
    ensures
        forall|k: Seq<char>| #[trigger] lookup(entries, k) is Some ==> ks.contains(k),
{
    assert forall|k: Seq<char>| #[trigger] lookup(entries, k) is Some implies ks.contains(k) by {
        lemma_found_key(entries, k);
    }
}

/// Whether two texts hold the same characters.
pub fn same_text(a: &str, b: &str) -> (r: bool)
    ensures
        r == (a@ == b@),
{
    let n = a.unicode_len();
    if n != b.unicode_len() {
        return false;
    }
    let mut i: usize = 0;
    while i < n
        invariant
            n == a@.len(),
            n == b@.len(),
            0 <= i <= n,
            forall|j: int| 0 <= j < i ==> a@[j] == b@[j],
        decreases n - i,
    {
        if a.get_char(i) != b.get_char(i) {
            return false;
        }
        i = i + 1;
    }
    assert(a@ =~= b@);
    true
}

impl Json {
    /// The member `key` of this value, when it is an object that has it.
    pub fn get(&self, key: &str) -> (r: Option<&Json>)
        ensures
            r is Some ==> member(*self, key@) == Some(*r.unwrap()),
            r is None ==> member(*self, key@) is None,
    {
        match self {
            Json::Object(entries) => {
                let mut i: usize = 0;
                assert(entries@.subrange(0, entries@.len() as int) =~= entries@);
                while i < entries.len()
                    invariant
                        0 <= i <= entries@.len(),
                        member(*self, key@) == lookup(entries@, key@),
                        lookup(entries@, key@) == lookup(entries@.subrange(i as int, entries@.len() as int), key@),
                    decreases entries@.len() - i,
                {
                    let ghost rest = entries@.subrange(i as int, entries@.len() as int);
                    assert(rest.drop_first() =~= entries@.subrange(i + 1, entries@.len() as int));
                    assert(rest[0] == entries@[i as int]);
                    if same_text(entries[i].0.as_str(), key) {
                        assert(rest.len() > 0 && rest[0].0@ == key@);
                        assert(lookup(rest, key@) == Some(rest[0].1));
                        return Some(&entries[i].1);
                    }
                    i = i + 1;
                }
                None
            },
            _ => None,
        }
    }

    /// The member `key` of this value, taken out of it.
    pub fn into_member(self, key: &str) -> (r: Option<Json>)
        ensures
            r == member(self, key@),
    {
        let ghost whole = self;
        let this = self;
        match this {
            Json::Object(entries) => {
                let mut entries = entries;
                let mut i: usize = 0;
                assert(entries@.subrange(0, entries@.len() as int) =~= entries@);
                while i < entries.len()
                    invariant
                        0 <= i <= entries@.len(),
                        whole == self,
                        member(whole, key@) == lookup(entries@, key@),
                        lookup(entries@, key@) == lookup(entries@.subrange(i as int, entries@.len() as int), key@),
                    decreases entries@.len() - i,
                {
                    let ghost rest = entries@.subrange(i as int, entries@.len() as int);
                    assert(rest.drop_first() =~= entries@.subrange(i + 1, entries@.len() as int));
                    assert(rest[0] == entries@[i as int]);
                    if same_text(entries[i].0.as_str(), key) {
                        assert(lookup(rest, key@) == Some(rest[0].1));
                        let ghost before = entries@;
                        let (_, v) = entries.remove(i);
                        assert(v == before[i as int].1);


                        return Some(v);
                    }
                    i = i + 1;
                }
                None
            },
            _ => None,
        }
    }

    /// The text of this value, when it is a string.
    pub fn as_str(&self) -> (r: Option<&str>)
        ensures
            r is Some ==> text_of(Some(*self)) == Some(r.unwrap()@),
            r is None ==> text_of(Some(*self)) is None,
    {
        match self {
            Json::Str(s) => Some(s.as_str()),
            _ => None,
        }
    }

}

/// Appending an entry leaves the earlier lookups as they were, and makes the
/// new key found where it was not.
pub proof fn lemma_lookup_push(s: Seq<(String, Json)>, e: (String, Json), k: Seq<char>)
    ensures
        lookup(s.push(e), k) == (if lookup(s, k) is Some {
            lookup(s, k)
        } else if e.0@ == k {
            Some(e.1)
        } else {
            None
        }),
    decreases s.len(),
{
    if s.len() == 0 {
        assert(s.push(e).drop_first() =~= Seq::<(String, Json)>::empty());
        assert(s.push(e)[0] == e);
        assert(lookup(s.push(e).drop_first(), k) is None);
        assert(lookup(s, k) is None);
    } else {
        assert(s.push(e).drop_first() =~= s.drop_first().push(e));
        assert(s.push(e)[0] == s[0]);
        lemma_lookup_push(s.drop_first(), e, k);
        assert(lookup(s.push(e), k) == (if s[0].0@ == k { Some(s[0].1) } else { lookup(s.drop_first().push(e), k) }));
    }
}

/// Replacing the first entry of a key changes the lookup of that key alone.
pub proof fn lemma_lookup_update(s: Seq<(String, Json)>, i: int, e: (String, Json), k: Seq<char>)
    requires
        0 <= i < s.len(),
        e.0@ == s[i].0@,
        forall|j: int| 0 <= j < i ==> s[j].0@ != e.0@,
    ensures
        lookup(s.update(i, e), k) == (if e.0@ == k {
            Some(e.1)
        } else {
            lookup(s, k)
        }),
    decreases s.len(),
{
    if i == 0 {
        assert(s.update(0, e).drop_first() =~= s.drop_first());
    } else {
        assert(s.update(i, e).drop_first() =~= s.drop_first().update(i - 1, e));
        lemma_lookup_update(s.drop_first(), i - 1, e, k);
    }
}

/// A key that no entry has is not found.
pub proof fn lemma_no_key_no_lookup(s: Seq<(String, Json)>, k: Seq<char>)
    requires
        forall|j: int| 0 <= j < s.len() ==> s[j].0@ != k,
    ensures
        lookup(s, k) is None,
    decreases s.len(),
{
    if s.len() > 0 {
        lemma_no_key_no_lookup(s.drop_first(), k);
    }
}

/// Sets `key` to `value`: replaces the first entry of `key`, or appends one.
pub fn put_member(entries: &mut Vec<(String, Json)>, key: String, value: Json)
    ensures
        forall|k: Seq<char>| #[trigger] lookup(final(entries)@, k) == (if k == key@ {
            Some(value)
        } else {
            lookup(old(entries)@, k)
        }),
{
    let mut i: usize = 0;
    while i < entries.len()
        invariant
            0 <= i <= entries@.len(),
            entries@ == old(entries)@,
            forall|j: int| 0 <= j < i ==> entries@[j].0@ != key@,
        decreases entries@.len() - i,
    {
        if same_text(entries[i].0.as_str(), key.as_str()) {
            let ghost before = entries@;
            let e = (key, value);
            proof {
                assert forall|k: Seq<char>| #[trigger] lookup(before.update(i as int, e), k) == (if k
                    == e.0@ {
                    Some(e.1)
                } else {
                    lookup(before, k)
                }) by {
                    lemma_lookup_update(before, i as int, e, k);
                }
            }
            entries.set(i, e);
            return;
        }
        i = i + 1;
    }
    let ghost before = entries@;
    let e = (key, value);
    proof {
        assert forall|k: Seq<char>| #[trigger] lookup(before.push(e), k) == (if k == e.0@ {
            Some(e.1)
        } else {
            lookup(before, k)
        }) by {
            lemma_lookup_push(before, e, k);
            if k == e.0@ {
                lemma_no_key_no_lookup(before, k);
            }
        }
    }
    entries.push(e);
}

/// An object of one member.
pub fn object1(k1: &str, v1: Json) -> (r: Json)
    ensures
        r is Object,
        member(r, k1@) == Some(v1),
        only_keys(r, seq![k1@]),
{
    proof {
        reveal_with_fuel(lookup, 2);
    }
    let entries = vec![(k1.to_owned(), v1)];
    proof {
        assert forall|k: Seq<char>| #[trigger] lookup(entries@, k) is Some implies seq![k1@].contains(k) by {
            assert(seq![k1@][0] == k1@);
        }
    }
    Json::Object(entries)
}

/// An object of two members with distinct keys.
pub fn object2(k1: &str, v1: Json, k2: &str, v2: Json) -> (r: Json)
    requires
        k1@ != k2@,
    ensures
        r is Object,
        member(r, k1@) == Some(v1),
        member(r, k2@) == Some(v2),
        only_keys(r, seq![k1@, k2@]),
{
    proof {
        reveal_with_fuel(lookup, 3);
    }
    let entries = vec![(k1.to_owned(), v1), (k2.to_owned(), v2)];
    proof {
        assert forall|k: Seq<char>| #[trigger] lookup(entries@, k) is Some implies seq![k1@, k2@].contains(k) by {
            lemma_found_key(entries@, k);
            let i = choose|i: int| 0 <= i < entries@.len() && (#[trigger] entries@[i]).0@ == k;
            assert(seq![k1@, k2@][i] == k);
        }
    }
    Json::Object(entries)
}

/// An object of three members with distinct keys.
pub fn object3(k1: &str, v1: Json, k2: &str, v2: Json, k3: &str, v3: Json) -> (r: Json)
    requires
        k1@ != k2@,
        k1@ != k3@,
        k2@ != k3@,
    ensures
        r is Object,
        member(r, k1@) == Some(v1),
        member(r, k2@) == Some(v2),
        member(r, k3@) == Some(v3),
        only_keys(r, seq![k1@, k2@, k3@]),
{
    proof {
        reveal_with_fuel(lookup, 4);
    }
    let entries = vec![(k1.to_owned(), v1), (k2.to_owned(), v2), (k3.to_owned(), v3)];
    proof {
        assert forall|k: Seq<char>| #[trigger] lookup(entries@, k) is Some implies seq![k1@, k2@, k3@].contains(k) by {
            lemma_found_key(entries@, k);
            let i = choose|i: int| 0 <= i < entries@.len() && (#[trigger] entries@[i]).0@ == k;
            assert(seq![k1@, k2@, k3@][i] == k);
        }
    }
    Json::Object(entries)
}

/// A text value.
pub fn text(s: &str) -> (r: Json)
    ensures
        text_of(Some(r)) == Some(s@),
{
    Json::Str(s.to_owned())
}

/// serde_json's value type, carried through the wrappers below.
#[verifier::external_type_specification]
#[verifier::external_body]
pub struct ExValue(serde_json::Value);

/// Converts a value of this library into serde_json's, one for one. The
/// entries of an object go in last first, so that where a key repeats the
/// first entry is the one that stays, as `member` reads it.
#[verifier::external_body]
fn to_serde(v: &Json) -> serde_json::Value {
    match v {
        Json::Null => serde_json::Value::Null,
        Json::Bool(b) => serde_json::Value::Bool(*b),
        Json::Int(n) => serde_json::Value::from(*n),
        Json::Decimal(s) => s.parse::<serde_json::Number>().map(serde_json::Value::Number).unwrap_or(serde_json::Value::Null),
        Json::Str(s) => serde_json::Value::String(s.clone()),
        Json::Array(a) => serde_json::Value::Array(a.iter().map(to_serde).collect()),
        Json::Object(o) => serde_json::Value::Object(o.iter().rev().map(|(k, v)| (k.clone(), to_serde(v))).collect()),
    }
}

/// Converts a serde_json value into one of this library, one for one.
#[verifier::external_body]
fn from_serde(v: serde_json::Value) -> Json {
    match v {
        serde_json::Value::Null => Json::Null,
        serde_json::Value::Bool(b) => Json::Bool(b),
        serde_json::Value::Number(n) => n.as_i64().map(Json::Int).unwrap_or_else(|| Json::Decimal(n.to_string())),
        serde_json::Value::String(s) => Json::Str(s),
        serde_json::Value::Array(a) => Json::Array(a.into_iter().map(from_serde).collect()),
        serde_json::Value::Object(o) => Json::Object(o.into_iter().map(|(k, v)| (k, from_serde(v))).collect()),
    }
}

/// The compact JSON text of a value.
pub uninterp spec fn json_text_of(v: Json) -> Seq<char>;

/// The value that a JSON text holds, or none when it is not JSON.
pub uninterp spec fn json_parse_of(s: Seq<char>) -> Option<Json>;

/// Relies on serde_json's `Value::to_string`: compact JSON text, which
/// depends on the value alone.
#[verifier::external_body]
fn serde_to_text(v: &Json) -> (r: String)
    ensures
        r@ == json_text_of(*v),
{
    to_serde(v).to_string()
}

/// Relies on `serde_json::from_str`: whether a text is JSON, and the value it
/// holds, depend on the text alone.
#[verifier::external_body]
fn serde_parse(s: &str) -> (r: Option<Json>)
    ensures
        r == json_parse_of(s@),
{
    serde_json::from_str::<serde_json::Value>(s).ok().map(from_serde)
}

impl Json {
    /// The compact JSON text of this value.
    pub fn to_text(&self) -> (r: String)
        ensures
            r@ == json_text_of(*self),
    {
        serde_to_text(self)
    }

    /// The value that `text` holds, or `None` when it is not JSON.
    pub fn parse(text: &str) -> (r: Option<Json>)
        ensures
            r == json_parse_of(text@),
    {
        serde_parse(text)
    }
}

} // verus!
