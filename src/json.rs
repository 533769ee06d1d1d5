//! The library's own model of a JSON document.

use vstd::prelude::*;
use crate::text::text_eq;

verus! {

/// A JSON number, held the way the JSON reader holds one.
#[derive(PartialEq, Eq, Structural, Clone, Copy, Debug)]
pub enum Number {
    /// A non-negative integer.
    PosInt(u64),
    /// A negative integer.
    NegInt(i64),
    /// A floating-point value, by its IEEE 754 bit pattern.
    Float(u64),
}

/// A JSON value. An object keeps its members in order; a key is looked up
/// at its first occurrence.
#[derive(Debug)]
pub enum Json {
    Null,
    Bool(bool),
    Number(Number),
    Str(String),
    Array(Vec<Json>),
    Object(Vec<(String, Json)>),
}

/// The value of the first member of `members` whose key is `key`.
pub open spec fn lookup(members: Seq<(String, Json)>, key: Seq<char>) -> Option<Json>
    decreases members.len(),
{
    if members.len() == 0 {
        None
    } else if members[0].0@ == key {
        Some(members[0].1)
    } else {
        lookup(members.drop_first(), key)
    }
}

/// The first member whose key is `key` is the one at `i`.
pub proof fn lemma_lookup_at(members: Seq<(String, Json)>, key: Seq<char>, i: int)
    requires
        0 <= i < members.len(),
        members[i].0@ == key,
        forall|j: int| 0 <= j < i ==> (#[trigger] members[j]).0@ != key,
    ensures
        lookup(members, key) == Some(members[i].1),
    decreases i,
{
    if i > 0 {
        let rest = members.drop_first();
        assert forall|j: int| 0 <= j < i - 1 implies (#[trigger] rest[j]).0@ != key by {
            assert(rest[j] == members[j + 1]);
        }
        lemma_lookup_at(rest, key, i - 1);
    }
}

impl Json {
    /// The member `key` of an object; nothing for any other value.
    pub open spec fn field(self, key: Seq<char>) -> Option<Json> {
        match self {
            Json::Object(members) => lookup(members@, key),
            _ => None,
        }
    }

    /// Whether this value is a string.
    pub open spec fn is_text(self) -> bool {
        self is Str
    }

    /// Whether this value is an array.
    pub open spec fn is_list(self) -> bool {
        self is Array
    }

    /// Whether this value is an integer that fits in 64 unsigned bits.
    pub open spec fn is_u64(self) -> bool {
        self matches Json::Number(Number::PosInt(_))
    }

    /// Whether member `key` is present and a string.
    pub open spec fn has_text(self, key: Seq<char>) -> bool {
        self.field(key) matches Some(v) && v is Str
    }

    /// The member `key` of an object, by reference.
    pub fn get(&self, key: &str) -> (r: Option<&Json>)
        ensures
            match r {
                Some(v) => self.field(key@) == Some(*v),
                None => self.field(key@) is None,
            },
    {
        match self {
            Json::Object(members) => {
                let n = members.len();
                let mut i: usize = 0;
                assert(members@.subrange(0, n as int) =~= members@);
                while i < n
                    invariant
                        n == members@.len(),
                        i <= n,
                        self.field(key@) == lookup(members@, key@),
                        lookup(members@, key@) == lookup(members@.subrange(i as int, n as int), key@),
                    decreases n - i,
                {
                    assert(members@.subrange(i as int, n as int).drop_first()
                        =~= members@.subrange(i + 1, n as int));
                    assert(members@.subrange(i as int, n as int)[0] == members@[i as int]);
                    if text_eq(members[i].0.as_str(), key) {
                        return Some(&members[i].1);
                    }
                    i = i + 1;
                }
                None
            },
            _ => None,
        }
    }

    /// The text of a string value.
    pub fn as_text(&self) -> (r: Option<&String>)
        ensures
            match r {
                Some(s) => *self == Json::Str(*s),
                None => !(self is Str),
            },
    {
        match self {
            Json::Str(s) => Some(s),
            _ => None,
        }
    }

    /// The elements of an array value.
    pub fn as_list(&self) -> (r: Option<&Vec<Json>>)
        ensures
            match r {
                Some(items) => *self == Json::Array(*items),
                None => !(self is Array),
            },
    {
        match self {
            Json::Array(items) => Some(items),
            _ => None,
        }
    }

    /// Whether this value is an integer that fits in 64 unsigned bits.
    pub fn is_unsigned(&self) -> (r: bool)
        ensures
            r == self.is_u64(),
    {
        match self {
            Json::Number(Number::PosInt(_)) => true,
            _ => false,
        }
    }

    /// Whether this value is `true` or `false`.
    pub fn is_boolean(&self) -> (r: bool)
        ensures
            r == (self is Bool),
    {
        match self {
            Json::Bool(_) => true,
            _ => false,
        }
    }

    /// Whether member `key` is present and a string.
    pub fn text_member(&self, key: &str) -> (r: bool)
        ensures
            r == self.has_text(key@),
    {
        match self.get(key) {
            Some(v) => v.as_text().is_some(),
            None => false,
        }
    }

    /// A string value holding `s`.
    pub fn text(s: &str) -> (r: Json)
        ensures
            r matches Json::Str(t) && t@ == s@,
    {
        Json::Str(String::from_str(s))
    }
}

/// An optional string field: absent or `null` is `None`, a string is that
/// string; anything else does not decode.
pub open spec fn optional_text(v: Option<Json>) -> Option<Option<String>> {
    match v {
        None => Some(None),
        Some(Json::Null) => Some(None),
        Some(Json::Str(s)) => Some(Some(s)),
        _ => None,
    }
}

/// An optional string member of `obj`, as `optional_text` reads it.
pub fn read_optional_text(obj: &Json, key: &str) -> (r: Option<Option<String>>)
    ensures
        r == optional_text(obj.field(key@)),
{
    match obj.get(key) {
        None => Some(None),
        Some(Json::Null) => Some(None),
        Some(Json::Str(s)) => Some(Some(s.clone())),
        _ => None,
    }
}

/// A string member of `obj`.
pub fn read_text(obj: &Json, key: &str) -> (r: Option<String>)
    ensures
        match obj.field(key@) {
            Some(Json::Str(s)) => r == Some(s),
            _ => r is None,
        },
{
    match obj.get(key) {
        Some(Json::Str(s)) => Some(s.clone()),
        _ => None,
    }
}

/// An optional string as JSON: the string, or `null`.
pub fn optional_text_json(s: Option<String>) -> (r: Json)
    ensures
        optional_text(Some(r)) == Some(s),
{
    match s {
        Some(t) => Json::Str(t),
        None => Json::Null,
    }
}

/// An object member.
pub fn member(key: &str, value: Json) -> (r: (String, Json))
    ensures
        r.0@ == key@,
        r.1 == value,
{
    (String::from_str(key), value)
}

} // verus!

verus! {

/// No two members of `members` share a key.
pub open spec fn keys_distinct(members: Seq<(String, Json)>) -> bool {
    forall|i: int, j: int| 0 <= i < j < members.len() ==> (#[trigger] members[i]).0@ != (#[trigger] members[j]).0@
}

/// An object whose members have distinct keys; each key finds its value.
pub(crate) fn object_of(members: Vec<(String, Json)>) -> (r: Json)
    requires
        keys_distinct(members@),
    ensures
        r == Json::Object(members),
        forall|i: int| 0 <= i < members@.len() ==> r.field((#[trigger] members@[i]).0@) == Some(members@[i].1),
{
    proof {
        assert forall|i: int| 0 <= i < members@.len() implies lookup(members@, (#[trigger] members@[i]).0@) == Some(members@[i].1) by {
            assert forall|j: int| 0 <= j < i implies (#[trigger] members@[j]).0@ != members@[i].0@ by {
                assert(members@[j].0@ != members@[i].0@);
            }
            lemma_lookup_at(members@, members@[i].0@, i);
        }
    }
    Json::Object(members)
}

/// A list of strings as a JSON array of them.
pub open spec fn texts(items: Seq<Json>, strs: Seq<String>) -> bool {
    items.len() == strs.len() && forall|i: int| 0 <= i < items.len() ==> #[trigger] items[i] == Json::Str(strs[i])
}

/// The strings `strs` as a JSON array.
pub fn text_array(strs: &Vec<String>) -> (r: Json)
    ensures
        r matches Json::Array(items) && texts(items@, strs@),
{
    let mut out: Vec<Json> = Vec::new();
    let n = strs.len();
    let mut i: usize = 0;
    while i < n
        invariant
            n == strs@.len(),
            i <= n,
            out@.len() == i,
            forall|j: int| 0 <= j < i ==> #[trigger] out@[j] == Json::Str(strs@[j]),
        decreases n - i,
    {
        out.push(Json::Str(strs[i].clone()));
        i = i + 1;
    }
    Json::Array(out)
}

} // verus!

verus! {

/// Replacing a member whose key is not `key`, by another such member, does
/// not change what `key` finds.
pub proof fn lemma_lookup_update(members: Seq<(String, Json)>, i: int, m: (String, Json), key: Seq<char>)
    requires
        0 <= i < members.len(),
        members[i].0@ != key,
        m.0@ != key,
    ensures
        lookup(members.update(i, m), key) == lookup(members, key),
    decreases members.len(),
{
    let u = members.update(i, m);
    if i == 0 {
        assert(u.drop_first() =~= members.drop_first());
    } else {
        assert(u[0] == members[0]);
        assert(u.drop_first() =~= members.drop_first().update(i - 1, m));
        lemma_lookup_update(members.drop_first(), i - 1, m, key);
    }
}

/// Appending a member whose key is not `key` does not change what `key`
/// finds.
pub proof fn lemma_lookup_push(members: Seq<(String, Json)>, m: (String, Json), key: Seq<char>)
    requires
        m.0@ != key,
    ensures
        lookup(members.push(m), key) == lookup(members, key),
    decreases members.len(),
{
    let p = members.push(m);
    if members.len() == 0 {
        assert(p[0] == m);
        assert(p.drop_first() =~= Seq::<(String, Json)>::empty());
        assert(lookup(p.drop_first(), key) is None);
        assert(lookup(p, key) == lookup(p.drop_first(), key));
    } else {
        assert(p[0] == members[0]);
        assert(p.drop_first() =~= members.drop_first().push(m));
        lemma_lookup_push(members.drop_first(), m, key);
        if members[0].0@ != key {
            assert(lookup(p, key) == lookup(p.drop_first(), key));
        }
    }
}

impl Json {
    /// Sets member `key` of an object to `value`: in place where the key is
    /// present, else appended. Any other value is left as it is.
    pub fn set_member(self, key: &str, value: Json) -> (r: Json)
        ensures
            self is Object ==> r.field(key@) == Some(value),
            self is Object ==> r is Object && forall|k: Seq<char>| k != key@ ==> #[trigger] r.field(k) == self.field(k),
            !(self is Object) ==> r == self,
    {
        match self {
            Json::Object(mut members) => {
                let n = members.len();
                let mut i: usize = 0;
                while i < n
                    invariant
                        n == members@.len(),
                        i <= n,
                        self == Json::Object(members),
                        forall|j: int| 0 <= j < i ==> (#[trigger] members@[j]).0@ != key@,
                    decreases n - i,
                {
                    if text_eq(members[i].0.as_str(), key) {
                        let ghost before = members@;
                        let m = member(key, value);
                        let ghost mg = m;
                        members.set(i, m);
                        proof {
                            assert forall|j: int| 0 <= j < i implies (#[trigger] members@[j]).0@ != key@ by {
                                assert(members@[j] == before[j]);
                            }
                            lemma_lookup_at(members@, key@, i as int);
                            assert(members@ == before.update(i as int, mg));
                            assert forall|k: Seq<char>| k != key@ implies lookup(members@, k) == lookup(before, k) by {
                                lemma_lookup_update(before, i as int, mg, k);
                            }
                        }
                        return Json::Object(members);
                    }
                    i = i + 1;
                }
                let ghost before = members@;
                let m = member(key, value);
                let ghost mg = m;
                members.push(m);
                proof {
                    assert forall|k: Seq<char>| k != key@ implies lookup(members@, k) == lookup(before, k) by {
                        lemma_lookup_push(before, mg, k);
                    }
                    assert forall|j: int| 0 <= j < n implies (#[trigger] members@[j]).0@ != key@ by {
                        assert(members@[j] == members@.subrange(0, n as int)[j]);
                    }
                    lemma_lookup_at(members@, key@, n as int);
                }
                Json::Object(members)
            },
            other => other,
        }
    }
}

} // verus!
