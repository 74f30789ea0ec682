//! The nested key/value tree that the data store answers with and accepts.

use vstd::prelude::*;
use crate::store::StrMap;

verus! {

/// A value of the data store: a leaf, a list, or an object whose members are
/// values again.
#[derive(Debug)]
pub enum Value {
    Null,
    Bool(bool),
    /// A numeric leaf, kept as the literal it was written with. The protocol
    /// never reads the magnitude of a number: records are strings.
    Number(String),
    String(String),
    Array(Vec<Value>),
    Object(StrMap<Value>),
}

/// The texts of members that are all strings; `None` where one is not.
pub open spec fn texts_of(m: Map<Seq<char>, Value>) -> Option<Map<Seq<char>, Seq<char>>> {
    if forall|k: Seq<char>| m.contains_key(k) ==> (#[trigger] m[k]).text() is Some {
        Some(Map::new(|k: Seq<char>| m.contains_key(k), |k: Seq<char>| m[k].text()->0))
    } else {
        None
    }
}

/// Adding a string member adds its text.
pub proof fn lemma_texts_of_insert(m: Map<Seq<char>, Value>, key: Seq<char>, member: Value)
    requires
        texts_of(m) is Some,
        member.text() is Some,
    ensures
        texts_of(m.insert(key, member)) == Some(texts_of(m)->0.insert(key, member.text()->0)),
{
    let n = m.insert(key, member);
    assert forall|k: Seq<char>| n.contains_key(k) implies (#[trigger] n[k]).text() is Some by {
        if k != key {
            assert(m.contains_key(k));
            assert(n[k] == m[k]);
        }
    }
    assert(texts_of(n)->0 =~= texts_of(m)->0.insert(key, member.text()->0));
}

impl Value {
    /// The members of an object; `None` for every other kind of value.
    pub open spec fn members(&self) -> Option<Map<Seq<char>, Value>> {
        match *self {
            Value::Object(m) => Some(m@),
            _ => None,
        }
    }

    /// The text of a string; `None` for every other kind of value.
    pub open spec fn text(&self) -> Option<Seq<char>> {
        match *self {
            Value::String(s) => Some(s@),
            _ => None,
        }
    }

    /// The member of an object under `key`; `None` where the value is no
    /// object or has no such member.
    pub open spec fn child(&self, key: Seq<char>) -> Option<Value> {
        match self.members() {
            Some(m) => if m.contains_key(key) {
                Some(m[key])
            } else {
                None
            },
            None => None,
        }
    }

    /// The one member of an object that holds `key` and nothing else.
    pub open spec fn sole(&self, key: Seq<char>) -> Option<Value> {
        match self.members() {
            Some(m) => if m.dom() =~= set![key] {
                Some(m[key])
            } else {
                None
            },
            None => None,
        }
    }

    /// The texts of the members of an object whose members are all strings.
    pub open spec fn text_members(&self) -> Option<Map<Seq<char>, Seq<char>>> {
        match self.members() {
            Some(m) => texts_of(m),
            None => None,
        }
    }

    /// Looks up a member of an object.
    pub fn get(&self, key: &String) -> (r: Option<&Value>)
        ensures
            match r {
                Some(v) => self.child(key@) == Some(*v),
                None => self.child(key@) is None,
            },
    {
        match self {
            Value::Object(m) => m.get(key),
            _ => None,
        }
    }

    /// The text of a string value.
    pub fn as_str(&self) -> (r: Option<&str>)
        ensures
            match r {
                Some(s) => self.text() == Some(s@),
                None => self.text() is None,
            },
    {
        match self {
            Value::String(s) => Some(s.as_str()),
            _ => None,
        }
    }

    /// The members of an object value.
    pub fn as_object(&self) -> (r: Option<&StrMap<Value>>)
        ensures
            match r {
                Some(m) => self.members() == Some(m@),
                None => self.members() is None,
            },
    {
        match self {
            Value::Object(m) => Some(m),
            _ => None,
        }
    }

    /// An object with the single member `inner` under `key`.
    pub fn wrap(key: String, inner: Value) -> (r: Value)
        ensures
            r.sole(key@) == Some(inner),
            r.members() == Some(Map::<Seq<char>, Value>::empty().insert(key@, inner)),
    {
        let mut m: StrMap<Value> = StrMap::new();
        m.insert(key, inner);
        assert(m@.dom() =~= set![key@]);
        Value::Object(m)
    }
}

} // verus!
