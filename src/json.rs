use vstd::prelude::*;
use vstd::string::*;

verus! {

/// A JSON document as the library reads it. Numbers are kept in their
/// textual form, so that any number a client sends can be echoed unchanged.
#[derive(Debug)]
pub enum Json {
    Null,
    Bool(bool),
    Number(String),
    Str(String),
    Array(Vec<Json>),
    Object(Vec<(String, Json)>),
}

/// The string held under `key` among `fields`, looking from index `i` on;
/// the first field with that key decides.
pub open spec fn lookup_str_from(fields: Seq<(String, Json)>, key: Seq<char>, i: int) -> Option<
    Seq<char>,
>
    decreases fields.len() - i,
{
    if i < 0 || i >= fields.len() {
        None
    } else if fields[i].0@ == key {
        match fields[i].1 {
            Json::Str(s) => Some(s@),
            _ => None,
        }
    } else {
        lookup_str_from(fields, key, i + 1)
    }
}

/// The string under `key` when `v` is an object whose field `key` is a
/// string; `None` otherwise.
pub open spec fn str_field(v: Json, key: Seq<char>) -> Option<Seq<char>> {
    match v {
        Json::Object(fields) => lookup_str_from(fields@, key, 0),
        _ => None,
    }
}

/// `str_field`, with a default for a field that is absent or not a string.
pub open spec fn str_field_or(v: Json, key: Seq<char>, default: Seq<char>) -> Seq<char> {
    match str_field(v, key) {
        Some(s) => s,
        None => default,
    }
}

impl Json {
    /// The string field `key` of this object, if there is one.
    pub fn get_str(&self, key: &str) -> (r: Option<String>)
        ensures
            r matches Some(s) ==> str_field(*self, key@) == Some(s@),
            r is None ==> str_field(*self, key@) is None,
    {
        match self {
            Json::Object(fields) => {
                let k = String::from_str(key);
                let mut i: usize = 0;
                while i < fields.len()
                    invariant
                        k@ == key@,
                        i <= fields@.len(),
                        str_field(*self, key@) == lookup_str_from(fields@, key@, i as int),
                    decreases fields.len() - i,
                {
                    if fields[i].0 == k {
                        let entry = &fields[i];
                        assert(entry.0@ == key@);
                        assert(lookup_str_from(fields@, key@, i as int) == match entry.1 {
                            Json::Str(s) => Some(s@),
                            _ => None,
                        });
                        let found = match &entry.1 {
                            Json::Str(s) => Some(s.clone()),
                            _ => None,
                        };
                        return found;
                    }
                    i = i + 1;
                }
                None
            },
            _ => None,
        }
    }

    /// The string field `key` of this object, or `default` where it is
    /// absent or not a string.
    pub fn get_str_or(&self, key: &str, default: &str) -> (r: String)
        ensures
            r@ == str_field_or(*self, key@, default@),
    {
        match self.get_str(key) {
            Some(s) => s,
            None => String::from_str(default),
        }
    }
}

} // verus!
