use vstd::prelude::*;
use vstd::string::*;

use crate::text::text_eq;

verus! {

/// A JSON value as the protocol exchanges it.
///
/// Numbers that fit an `i64` are held as integers; any other number keeps its
/// JSON text. Object members keep the order in which they were given.
#[derive(Debug, PartialEq, Eq)]
pub enum Json {
    Null,
    Bool(bool),
    Int(i64),
    Number(String),
    Str(String),
    Array(Vec<Json>),
    Object(Vec<(String, Json)>),
}

/// The value of the first member named `key`.
pub open spec fn lookup(members: Seq<(String, Json)>, key: Seq<char>) -> Option<Json>
    decreases members.len(),
{
    if members.len() == 0 {
        None
    } else if members[0].0@ == key {
        Some(members[0].1)
    } else {
        lookup(members.drop_first(), key)
    }
}

/// The mathematical value of a [`Json`].
pub enum JsonV {
    Null,
    Bool(bool),
    Int(i64),
    Number(Seq<char>),
    Str(Seq<char>),
    Array(Seq<JsonV>),
    Object(Seq<(Seq<char>, JsonV)>),
}

impl Json {
    pub open spec fn deep(self) -> JsonV
        decreases self,
    {
        match self {
            Json::Null => JsonV::Null,
            Json::Bool(b) => JsonV::Bool(b),
            Json::Int(i) => JsonV::Int(i),
            Json::Number(s) => JsonV::Number(s@),
            Json::Str(s) => JsonV::Str(s@),
            Json::Array(items) => JsonV::Array(
                Seq::new(
                    items@.len(),
                    |i: int|
                        if 0 <= i < items@.len() {
                            items@[i].deep()
                        } else {
                            JsonV::Null
                        },
                ),
            ),
            Json::Object(members) => JsonV::Object(
                Seq::new(
                    members@.len(),
                    |i: int|
                        if 0 <= i < members@.len() {
                            (members@[i].0@, members@[i].1.deep())
                        } else {
                            (Seq::empty(), JsonV::Null)
                        },
                ),
            ),
        }
    }
}

/// The member `key` of `v`, where `v` is an object that has one.
pub open spec fn field(v: Json, key: Seq<char>) -> Option<Json> {
    match v {
        Json::Object(members) => lookup(members@, key),
        _ => None,
    }
}

/// The text of a string value.
pub open spec fn as_text(v: Option<Json>) -> Option<Seq<char>> {
    match v {
        Some(Json::Str(s)) => Some(s@),
        _ => None,
    }
}

/// The text of a string value, or `d`.
pub open spec fn text_or(v: Option<Json>, d: Seq<char>) -> Seq<char> {
    match as_text(v) {
        Some(s) => s,
        None => d,
    }
}

/// The flag of a boolean value.
pub open spec fn as_flag(v: Option<Json>) -> Option<bool> {
    match v {
        Some(Json::Bool(b)) => Some(b),
        _ => None,
    }
}

/// The integer of a number value that fits an `i64`.
pub open spec fn as_int(v: Option<Json>) -> Option<i64> {
    match v {
        Some(Json::Int(i)) => Some(i),
        _ => None,
    }
}

/// Whether `v` is the object without members.
pub open spec fn is_empty_object(v: Json) -> bool {
    match v {
        Json::Object(members) => members@.len() == 0,
        _ => false,
    }
}

impl Json {
    /// A copy of the value, member by member.
    pub fn duplicate(&self) -> (r: Json)
        ensures
            r.deep() == self.deep(),
        decreases self,
    {
        match self {
            Json::Null => Json::Null,
            Json::Bool(b) => Json::Bool(*b),
            Json::Int(i) => Json::Int(*i),
            Json::Number(s) => Json::Number(s.clone()),
            Json::Str(s) => Json::Str(s.clone()),
            Json::Array(items) => {
                let mut out: Vec<Json> = Vec::new();
                let mut i: usize = 0;
                while i < items.len()
                    invariant
                        *self == Json::Array(*items),
                        i <= items@.len(),
                        out@.len() == i,
                        forall|k: int| 0 <= k < i ==> out@[k].deep() == items@[k].deep(),
                    decreases items@.len() - i,
                {
                    proof {
                        vstd::std_specs::vec::axiom_vec_index_decreases(*items, i as int);
                        assert(*items == self->Array_0);
                        assert(decreases_to!(*self => self->Array_0));
                    }
                    let c = items[i].duplicate();
                    out.push(c);
                    i = i + 1;
                }
                let r = Json::Array(out);
                assert(r.deep() == self.deep()) by {
                    if let JsonV::Array(a) = r.deep() {
                        if let JsonV::Array(b) = self.deep() {
                            assert(a =~= b);
                        }
                    }
                }
                r
            },
            Json::Object(members) => {
                let mut out: Vec<(String, Json)> = Vec::new();
                let mut i: usize = 0;
                while i < members.len()
                    invariant
                        *self == Json::Object(*members),
                        i <= members@.len(),
                        out@.len() == i,
                        forall|k: int|
                            0 <= k < i ==> out@[k].0@ == members@[k].0@ && out@[k].1.deep()
                                == members@[k].1.deep(),
                    decreases members@.len() - i,
                {
                    proof {
                        vstd::std_specs::vec::axiom_vec_index_decreases(*members, i as int);
                        assert(*members == self->Object_0);
                        assert(decreases_to!(*self => self->Object_0));
                        assert(decreases_to!(members[i as int] => members[i as int].1));
                    }
                    let c = members[i].1.duplicate();
                    out.push((members[i].0.clone(), c));
                    i = i + 1;
                }
                let r = Json::Object(out);
                assert(r.deep() == self.deep()) by {
                    if let JsonV::Object(a) = r.deep() {
                        if let JsonV::Object(b) = self.deep() {
                            assert(a =~= b);
                        }
                    }
                }
                r
            },
        }
    }

    /// The object without members.
    pub fn new_object() -> (r: Json)
        ensures
            is_empty_object(r),
            r.deep() == JsonV::Object(Seq::empty()),
    {
        let r = Json::Object(Vec::new());
        proof {
            if let JsonV::Object(m) = r.deep() {
                assert(m =~= Seq::empty());
            }
        }
        r
    }

    /// The member `key`, where `self` is an object that has one.
    pub fn get(&self, key: &str) -> (r: Option<&Json>)
        ensures
            match r {
                Some(v) => field(*self, key@) == Some(*v),
                None => field(*self, key@) is None,
            },
    {
        match self {
            Json::Object(members) => {
                let mut i: usize = 0;
                assert(members@.subrange(0, members@.len() as int) =~= members@);
                while i < members.len()
                    invariant
                        *self == Json::Object(*members),
                        i <= members@.len(),
                        lookup(members@, key@) == lookup(
                            members@.subrange(i as int, members@.len() as int),
                            key@,
                        ),
                    decreases members@.len() - i,
                {
                    let ghost rest = members@.subrange(i as int, members@.len() as int);
                    assert(rest[0] == members@[i as int]);
                    if text_eq(members[i].0.as_str(), key) {
                        return Some(&members[i].1);
                    }
                    assert(rest.drop_first() =~= members@.subrange(
                        i + 1,
                        members@.len() as int,
                    ));
                    i = i + 1;
                }
                None
            },
            _ => None,
        }
    }

    /// The text of the member `key` where it is a string, else `default`.
    pub fn get_text_or(&self, key: &str, default: &str) -> (r: String)
        ensures
            r@ == text_or(field(*self, key@), default@),
    {
        match self.get(key) {
            Some(Json::Str(s)) => s.clone(),
            _ => default.to_owned(),
        }
    }

    /// The flag of the member `key`, where it is a boolean.
    pub fn get_flag(&self, key: &str) -> (r: Option<bool>)
        ensures
            r == as_flag(field(*self, key@)),
    {
        match self.get(key) {
            Some(Json::Bool(b)) => Some(*b),
            _ => None,
        }
    }

    /// The integer of the member `key`, where it is a number that fits an `i64`.
    pub fn get_int(&self, key: &str) -> (r: Option<i64>)
        ensures
            r == as_int(field(*self, key@)),
    {
        match self.get(key) {
            Some(Json::Int(i)) => Some(*i),
            _ => None,
        }
    }
}

} // verus!
