use vstd::prelude::*;

use crate::error::LlmApiError;

verus! {

/// A JSON document as it is sent to or received from a backend.
#[derive(Debug, PartialEq)]
pub enum Json {
    Null,
    Bool(bool),
    /// A non-negative integer.
    Number(u64),
    /// Any other number, as the bit pattern of an IEEE-754 single
    /// (`f32::to_bits`).
    Float(u32),
    Str(String),
    Array(Vec<Json>),
    /// Members in the order in which they are written.
    Object(Vec<(String, Json)>),
}

/// The value of the first member named `key`.
pub open spec fn lookup(members: Seq<(String, Json)>, key: Seq<char>) -> Option<Json>
    decreases members.len(),
{
    if members.len() == 0 {
        None
    } else if members[0].0@ == key {
        Some(members[0].1)
    } else {
        lookup(members.drop_first(), key)
    }
}

impl Json {
    /// The member `key` of an object; nothing for any other value.
    pub open spec fn field(self, key: Seq<char>) -> Option<Json> {
        match self {
            Json::Object(m) => lookup(m@, key),
            _ => None,
        }
    }

    /// The names of an object's members, in order.
    pub open spec fn keys(self) -> Seq<Seq<char>> {
        match self {
            Json::Object(m) => m@.map_values(|e: (String, Json)| e.0@),
            _ => Seq::empty(),
        }
    }

    pub fn get(&self, key: &str) -> (r: Option<&Json>)
        ensures
            match r {
                Some(v) => self.field(key@) == Some(*v),
                None => self.field(key@) is None,
            },
    {
        match self {
            Json::Object(m) => {
                let wanted: String = key.to_owned();
                let mut i: usize = 0;
                assert(m@.subrange(0, m@.len() as int) =~= m@);
                while i < m.len()
                    invariant
                        i <= m@.len(),
                        wanted@ == key@,
                        self.field(key@) == lookup(m@.subrange(i as int, m@.len() as int), key@),
                    decreases m@.len() - i,
                {
                    assert(m@.subrange(i as int, m@.len() as int).drop_first()
                        =~= m@.subrange(i + 1, m@.len() as int));
                    assert(m@.subrange(i as int, m@.len() as int)[0] == m@[i as int]);
                    if m[i].0 == wanted {
                        assert(m@[i as int].0@ == key@);
                        assert(lookup(m@.subrange(i as int, m@.len() as int), key@) == Some(m@[i as int].1));
                        return Some(&m[i].1);
                    }
                    i = i + 1;
                }
                None
            },
            _ => None,
        }
    }
}


/// `j` is the string `s`.
pub open spec fn is_text(j: Json, s: Seq<char>) -> bool {
    j matches Json::Str(t) && t@ == s
}

/// A required string member.
pub open spec fn str_field(j: Json, key: Seq<char>) -> Option<Seq<char>> {
    match j.field(key) {
        Some(Json::Str(s)) => Some(s@),
        _ => None,
    }
}

/// An optional string member: absent or `null` reads as `Some(None)`; a
/// member of another kind does not read at all.
pub open spec fn opt_str_field(j: Json, key: Seq<char>) -> Option<Option<Seq<char>>> {
    match j.field(key) {
        None => Some(None),
        Some(Json::Null) => Some(None),
        Some(Json::Str(s)) => Some(Some(s@)),
        _ => None,
    }
}

/// A required member that holds an unsigned 32-bit integer.
pub open spec fn u32_field(j: Json, key: Seq<char>) -> Option<u32> {
    match j.field(key) {
        Some(Json::Number(n)) => if n <= u32::MAX { Some(n as u32) } else { None },
        _ => None,
    }
}

/// An optional unsigned 32-bit member, read as `opt_str_field` reads.
pub open spec fn opt_u32_field(j: Json, key: Seq<char>) -> Option<Option<u32>> {
    match j.field(key) {
        None => Some(None),
        Some(Json::Null) => Some(None),
        Some(Json::Number(n)) => if n <= u32::MAX { Some(Some(n as u32)) } else { None },
        _ => None,
    }
}

/// A required array member.
pub open spec fn array_field(j: Json, key: Seq<char>) -> Option<Seq<Json>> {
    match j.field(key) {
        Some(Json::Array(a)) => Some(a@),
        _ => None,
    }
}

/// The error for a member that is missing or of the wrong kind.
pub fn malformed(key: &str) -> (e: LlmApiError)
    ensures
        e is DeserializationError,
{
    LlmApiError::DeserializationError("missing or invalid field `".to_owned().concat(key).concat("`"))
}

impl Json {
    /// The value of the `i`-th member of an object.
    pub open spec fn entry(self, i: int) -> Json {
        match self {
            Json::Object(m) => m@[i].1,
            _ => Json::Null,
        }
    }

    pub fn get_string(&self, key: &str) -> (r: Result<String, LlmApiError>)
        ensures
            match r {
                Ok(s) => str_field(*self, key@) == Some(s@),
                Err(e) => str_field(*self, key@) is None && e is DeserializationError,
            },
    {
        match self.get(key) {
            Some(Json::Str(s)) => Ok(s.clone()),
            _ => Err(malformed(key)),
        }
    }

    pub fn get_opt_string(&self, key: &str) -> (r: Result<Option<String>, LlmApiError>)
        ensures
            match r {
                Ok(Some(s)) => opt_str_field(*self, key@) == Some(Some(s@)),
                Ok(None) => opt_str_field(*self, key@) == Some(None::<Seq<char>>),
                Err(e) => opt_str_field(*self, key@) is None && e is DeserializationError,
            },
    {
        match self.get(key) {
            None => Ok(None),
            Some(Json::Null) => Ok(None),
            Some(Json::Str(s)) => Ok(Some(s.clone())),
            _ => Err(malformed(key)),
        }
    }

    pub fn get_u32(&self, key: &str) -> (r: Result<u32, LlmApiError>)
        ensures
            match r {
                Ok(n) => u32_field(*self, key@) == Some(n),
                Err(e) => u32_field(*self, key@) is None && e is DeserializationError,
            },
    {
        match self.get(key) {
            Some(Json::Number(n)) => {
                if *n <= 4294967295u64 {
                    Ok(*n as u32)
                } else {
                    Err(malformed(key))
                }
            },
            _ => Err(malformed(key)),
        }
    }

    pub fn get_opt_u32(&self, key: &str) -> (r: Result<Option<u32>, LlmApiError>)
        ensures
            match r {
                Ok(n) => opt_u32_field(*self, key@) == Some(n),
                Err(e) => opt_u32_field(*self, key@) is None && e is DeserializationError,
            },
    {
        match self.get(key) {
            None => Ok(None),
            Some(Json::Null) => Ok(None),
            Some(Json::Number(n)) => {
                if *n <= 4294967295u64 {
                    Ok(Some(*n as u32))
                } else {
                    Err(malformed(key))
                }
            },
            _ => Err(malformed(key)),
        }
    }

    pub fn get_array(&self, key: &str) -> (r: Result<&Vec<Json>, LlmApiError>)
        ensures
            match r {
                Ok(a) => array_field(*self, key@) == Some(a@),
                Err(e) => array_field(*self, key@) is None && e is DeserializationError,
            },
    {
        match self.get(key) {
            Some(Json::Array(a)) => Ok(a),
            _ => Err(malformed(key)),
        }
    }
}

} // verus!
