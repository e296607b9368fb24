use vstd::prelude::*;
use crate::strutil::str_eq;

verus! {

/// A JSON document, modelled with plain values so that the logic that reads
/// configuration, settings and tool arguments can be verified. Numbers are
/// kept as signed integers; the fractional settings value (the sampling
/// temperature) is stored in hundredths.
#[derive(Debug)]
pub enum JsonValue {
    Null,
    Bool(bool),
    Int(i64),
    Str(String),
    Arr(Vec<JsonValue>),
    Obj(Vec<(String, JsonValue)>),
}

/// The value under `key` in an object's field list: the first binding wins,
/// as in a JSON object whose keys are unique.
pub open spec fn obj_get(fields: Seq<(String, JsonValue)>, key: Seq<char>) -> Option<JsonValue>
    decreases fields.len(),
{
    if fields.len() == 0 {
        None
    } else if fields[0].0@ == key {
        Some(fields[0].1)
    } else {
        obj_get(fields.drop_first(), key)
    }
}

/// `obj_get` is unaffected by a prefix of bindings whose keys all differ
/// from the key looked up.
pub proof fn lemma_obj_get_skip(fields: Seq<(String, JsonValue)>, key: Seq<char>, i: int)
    requires
        0 <= i <= fields.len(),
        forall|j: int| 0 <= j < i ==> fields[j].0@ != key,
    ensures
        obj_get(fields, key) == obj_get(fields.skip(i), key),
    decreases i,
{
    if i > 0 {
        assert(fields.drop_first() == fields.skip(1));
        lemma_obj_get_skip(fields.drop_first(), key, i - 1);
        assert(fields.drop_first().skip(i - 1) == fields.skip(i));
    } else {
        assert(fields.skip(0) == fields);
    }
}

impl JsonValue {
    /// Whether this value is a JSON object.
    pub fn is_object(&self) -> (r: bool)
        ensures
            r == (self is Obj),
    {
        match self {
            JsonValue::Obj(_) => true,
            _ => false,
        }
    }

    /// Looks `key` up in this value, when it is an object; the first binding
    /// with that key wins.
    pub fn get<'a>(&'a self, key: &str) -> (r: Option<&'a JsonValue>)
        ensures
            match r {
                Some(v) => self is Obj && obj_get(self->Obj_0@, key@) == Some(*v),
                None => !(self is Obj) || obj_get(self->Obj_0@, key@) is None,
            },
    {
        match self {
            JsonValue::Obj(fields) => {
                let n = fields.len();
                let mut i: usize = 0;
                while i < n
                    invariant
                        self is Obj,
                        fields@ == self->Obj_0@,
                        n == fields@.len(),
                        0 <= i <= n,
                        forall|j: int| 0 <= j < i ==> fields@[j].0@ != key@,
                    decreases n - i,
                {
                    if str_eq(fields[i].0.as_str(), key) {
                        proof {
                            lemma_obj_get_skip(fields@, key@, i as int);
                            assert(fields@.skip(i as int)[0] == fields@[i as int]);
                        }
                        return Some(&fields[i].1);
                    }
                    i = i + 1;
                }
                proof {
                    lemma_obj_get_skip(fields@, key@, n as int);
                }
                None
            },
            _ => None,
        }
    }

    /// The string held by this value, when it is a JSON string.
    pub fn as_str<'a>(&'a self) -> (r: Option<&'a String>)
        ensures
            match r {
                Some(s) => self is Str && s@ == self->Str_0@,
                None => !(self is Str),
            },
    {
        match self {
            JsonValue::Str(s) => Some(s),
            _ => None,
        }
    }

    /// The boolean held by this value, when it is a JSON boolean.
    pub fn as_bool(&self) -> (r: Option<bool>)
        ensures
            match r {
                Some(b) => self is Bool && b == self->Bool_0,
                None => !(self is Bool),
            },
    {
        match self {
            JsonValue::Bool(b) => Some(*b),
            _ => None,
        }
    }

    /// The integer held by this value, when it is a JSON number.
    pub fn as_int(&self) -> (r: Option<i64>)
        ensures
            match r {
                Some(n) => self is Int && n == self->Int_0,
                None => !(self is Int),
            },
    {
        match self {
            JsonValue::Int(n) => Some(*n),
            _ => None,
        }
    }

    /// The elements held by this value, when it is a JSON array.
    pub fn as_array<'a>(&'a self) -> (r: Option<&'a Vec<JsonValue>>)
        ensures
            match r {
                Some(items) => self is Arr && items@ == self->Arr_0@,
                None => !(self is Arr),
            },
    {
        match self {
            JsonValue::Arr(items) => Some(items),
            _ => None,
        }
    }

    /// The field list held by this value, when it is a JSON object.
    pub fn as_object<'a>(&'a self) -> (r: Option<&'a Vec<(String, JsonValue)>>)
        ensures
            match r {
                Some(fields) => self is Obj && fields@ == self->Obj_0@,
                None => !(self is Obj),
            },
    {
        match self {
            JsonValue::Obj(fields) => Some(fields),
            _ => None,
        }
    }
}

} // verus!
