//! A JSON value as plain data, the shape the request and document logic reads.
//!
//! Numbers are kept as their decimal text, exactly as they appear in the
//! document, so no floating-point value ever enters the library.
use vstd::prelude::*;
use crate::text::{chars_of, starts_with_str};

verus! {

/// A JSON document.
#[derive(Debug)]
pub enum Json {
    Null,
    Bool(bool),
    /// A number, as its JSON text.
    Number(String),
    Str(String),
    Array(Vec<Json>),
    /// Members in document order; keys are distinct.
    Object(Vec<(String, Json)>),
}

/// Index of the first member of `entries` whose key is `key`.
pub open spec fn member_index(entries: Seq<(String, Json)>, key: Seq<char>) -> Option<int>
    decreases entries.len(),
{
    if entries.len() == 0 {
        None
    } else {
        match member_index(entries.drop_last(), key) {
            Some(i) => Some(i),
            None => if entries.last().0@ == key {
                Some(entries.len() - 1)
            } else {
                None
            },
        }
    }
}

pub proof fn lemma_member_index(entries: Seq<(String, Json)>, key: Seq<char>)
    ensures
        match member_index(entries, key) {
            Some(i) => 0 <= i < entries.len() && entries[i].0@ == key && forall|j: int|
                0 <= j < i ==> entries[j].0@ != key,
            None => forall|j: int| 0 <= j < entries.len() ==> entries[j].0@ != key,
        },
    decreases entries.len(),
{
    if entries.len() > 0 {
        let d = entries.drop_last();
        lemma_member_index(d, key);
        match member_index(d, key) {
            Some(i) => {
                assert forall|j: int| 0 <= j < i implies entries[j].0@ != key by {
                    assert(d[j] == entries[j]);
                }
                assert(d[i] == entries[i]);
            },
            None => {
                assert forall|j: int| 0 <= j < entries.len() - 1 implies entries[j].0@ != key by {
                    assert(d[j] == entries[j]);
                }
            },
        }
    }
}

impl Json {
    /// Same document: equal scalars and strings with equal characters.
    pub open spec fn deep_eq(self, other: Json) -> bool
        decreases self,
    {
        match (self, other) {
            (Json::Null, Json::Null) => true,
            (Json::Bool(a), Json::Bool(b)) => a == b,
            (Json::Number(a), Json::Number(b)) => a@ == b@,
            (Json::Str(a), Json::Str(b)) => a@ == b@,
            (Json::Array(a), Json::Array(b)) => a@.len() == b@.len() && forall|i: int|
                0 <= i < a@.len() ==> (#[trigger] a@[i]).deep_eq(b@[i]),
            (Json::Object(a), Json::Object(b)) => a@.len() == b@.len() && forall|i: int|
                0 <= i < a@.len() ==> (#[trigger] a@[i]).0@ == b@[i].0@ && a@[i].1.deep_eq(
                    b@[i].1,
                ),
            _ => false,
        }
    }

    /// `Value::get` with a key: the member of an object, `None` otherwise.
    pub open spec fn spec_get(self, key: Seq<char>) -> Option<Json> {
        match self {
            Json::Object(entries) => match member_index(entries@, key) {
                Some(i) => Some(entries@[i].1),
                None => None,
            },
            _ => None,
        }
    }

    /// `Value::as_str`.
    pub open spec fn spec_as_str(self) -> Option<Seq<char>> {
        match self {
            Json::Str(s) => Some(s@),
            _ => None,
        }
    }

    /// `value.get(key).and_then(|v| v.as_str())`.
    pub open spec fn str_field(self, key: Seq<char>) -> Option<Seq<char>> {
        match self.spec_get(key) {
            Some(v) => v.spec_as_str(),
            None => None,
        }
    }

    /// Member `key` of an object.
    #[verifier::loop_isolation(false)]
    pub fn get(&self, key: &str) -> (r: Option<&Json>)
        ensures
            match r {
                Some(v) => self.spec_get(key@) == Some(*v),
                None => self.spec_get(key@) is None,
            },
    {
        match self {
            Json::Object(entries) => {
                let mut i: usize = 0;
                while i < entries.len()
                    invariant
                        i <= entries@.len(),
                        member_index(entries@.take(i as int), key@) is None,
                    decreases entries@.len() - i,
                {
                    proof {
                        assert(entries@.take(i + 1).drop_last() =~= entries@.take(i as int));
                    }
                    let kc = chars_of(entries[i].0.as_str());
                    let same = kc.len() == key.unicode_len() && starts_with_str(kc.as_slice(), key);
                    proof {
                        if same {
                            assert(kc@.take(key@.len() as int) =~= kc@);
                        }
                        if kc@ == key@ {
                            assert(kc@.take(key@.len() as int) =~= kc@);
                        }
                    }
                    if same {
                        proof {
                            assert(member_index(entries@.take(i + 1), key@) == Some(i as int));
                            lemma_prefix_member(entries@, i as int, key@);
                        }
                        return Some(&entries[i].1);
                    }
                    i = i + 1;
                }
                proof {
                    assert(entries@.take(i as int) =~= entries@);
                }
                None
            },
            _ => None,
        }
    }

    /// A deep copy.
    #[verifier::loop_isolation(false)]
    pub fn duplicate(&self) -> (r: Json)
        ensures
            r.deep_eq(*self),
        decreases self,
    {
        match self {
            Json::Null => Json::Null,
            Json::Bool(b) => Json::Bool(*b),
            Json::Number(n) => Json::Number(n.clone()),
            Json::Str(s) => Json::Str(s.clone()),
            Json::Array(items) => {
                let mut out: Vec<Json> = Vec::new();
                let mut i: usize = 0;
                while i < items.len()
                    invariant
                        i <= items@.len(),
                        out@.len() == i,
                        forall|j: int| 0 <= j < i ==> (#[trigger] out@[j]).deep_eq(items@[j]),
                    decreases items@.len() - i,
                {
                    proof {
                        assert(decreases_to!(*self => self->Array_0));
                        assert(decreases_to!(self->Array_0 => items@));
                        assert(decreases_to!(items@ => items@[i as int]));
                        assert(decreases_to!(*self => items@[i as int]));
                    }
                    let d = items[i].duplicate();
                    out.push(d);
                    i = i + 1;
                }
                Json::Array(out)
            },
            Json::Object(entries) => {
                let mut out: Vec<(String, Json)> = Vec::new();
                let mut i: usize = 0;
                while i < entries.len()
                    invariant
                        i <= entries@.len(),
                        out@.len() == i,
                        forall|j: int|
                            0 <= j < i ==> (#[trigger] out@[j]).0@ == entries@[j].0@ && out@[j].1.deep_eq(
                                entries@[j].1,
                            ),
                    decreases entries@.len() - i,
                {
                    proof {
                        assert(decreases_to!(*self => self->Object_0));
                        assert(decreases_to!(self->Object_0 => entries@));
                        assert(decreases_to!(entries@ => entries@[i as int]));
                        assert(decreases_to!(entries@[i as int] => entries@[i as int].1));
                        assert(decreases_to!(*self => entries@[i as int].1));
                    }
                    let d = entries[i].1.duplicate();
                    out.push((entries[i].0.clone(), d));
                    i = i + 1;
                }
                Json::Object(out)
            },
        }
    }

    /// `Value::as_str`.
    pub fn as_str(&self) -> (r: Option<&String>)
        ensures
            match r {
                Some(s) => self.spec_as_str() == Some(s@),
                None => self.spec_as_str() is None,
            },
    {
        match self {
            Json::Str(s) => Some(s),
            _ => None,
        }
    }

    /// `Value::is_object`.
    pub fn is_object(&self) -> (b: bool)
        ensures
            b == (self is Object),
    {
        match self {
            Json::Object(_) => true,
            _ => false,
        }
    }

    /// `Value::is_string`.
    pub fn is_string(&self) -> (b: bool)
        ensures
            b == (self is Str),
    {
        match self {
            Json::Str(_) => true,
            _ => false,
        }
    }

    /// `value.get(key).and_then(|v| v.as_str())`, copied out.
    pub fn get_str(&self, key: &str) -> (r: Option<String>)
        ensures
            match r {
                Some(s) => self.str_field(key@) == Some(s@),
                None => self.str_field(key@) is None,
            },
    {
        match self.get(key) {
            Some(v) => match v.as_str() {
                Some(s) => Some(s.clone()),
                None => None,
            },
            None => None,
        }
    }
}

proof fn lemma_prefix_member(entries: Seq<(String, Json)>, i: int, key: Seq<char>)
    requires
        0 <= i < entries.len(),
        member_index(entries.take(i + 1), key) == Some(i),
    ensures
        member_index(entries, key) == Some(i),
    decreases entries.len(),
{
    if entries.len() > i + 1 {
        assert(entries.drop_last().take(i + 1) =~= entries.take(i + 1));
        lemma_prefix_member(entries.drop_last(), i, key);
    } else {
        assert(entries.take(i + 1) =~= entries);
    }
}

} // verus!
