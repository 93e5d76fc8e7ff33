//! A JSON document as plain data, and the two look-ups that a reply of the
//! geocoding service is read with.

use vstd::prelude::*;

verus! {

/// A JSON value. A number is held as decimal text: the digits that the
/// default formatting of its 64-bit float writes. The members of an object
/// are held in the order in which they were handed over; a look-up by name
/// takes the first that bears the name.
#[derive(Debug)]
pub enum Json {
    Null,
    Bool(bool),
    Number(String),
    Text(String),
    Array(Vec<Json>),
    Object(Vec<(String, Json)>),
}

/// The value of the first entry named `key`, if there is one.
pub open spec fn first_named(entries: Seq<(String, Json)>, key: Seq<char>) -> Option<Json>
    decreases entries.len(),
{
    if entries.len() == 0 {
        None
    } else if entries[0].0@ == key {
        Some(entries[0].1)
    } else {
        first_named(entries.drop_first(), key)
    }
}

impl Json {
    /// The member named `key` of an object; `None` for any other value and
    /// for an object without such a member.
    pub open spec fn spec_member(self, key: Seq<char>) -> Option<Json> {
        match self {
            Json::Object(entries) => first_named(entries@, key),
            _ => None,
        }
    }

    /// The element at `index` of an array; `None` for any other value and
    /// for an array that is too short.
    pub open spec fn spec_element(self, index: int) -> Option<Json> {
        match self {
            Json::Array(items) => if 0 <= index < items@.len() {
                Some(items@[index])
            } else {
                None
            },
            _ => None,
        }
    }

    /// The decimal text of a number; `None` for any other value.
    pub open spec fn spec_number(self) -> Option<Seq<char>> {
        match self {
            Json::Number(text) => Some(text@),
            _ => None,
        }
    }

    /// The member named `key` of an object.
    pub fn member(&self, key: &str) -> (r: Option<&Json>)
        ensures
            match r {
                Some(value) => self.spec_member(key@) == Some(*value),
                None => self.spec_member(key@) is None,
            },
    {
        match self {
            Json::Object(entries) => {
                let name = key.to_owned();
                let mut i: usize = 0;
                assert(entries@.skip(0) == entries@);
                while i < entries.len()
                    invariant
                        i <= entries.len(),
                        name@ == key@,
                        self.spec_member(key@) == first_named(entries@, key@),
                        first_named(entries@, key@) == first_named(entries@.skip(i as int), key@),
                    decreases entries.len() - i,
                {
                    let ghost rest = entries@.skip(i as int);
                    assert(rest[0] == entries@[i as int]);
                    assert(rest.drop_first() == entries@.skip(i + 1));
                    if entries[i].0 == name {
                        assert(first_named(rest, key@) == Some(entries@[i as int].1));
                        return Some(&entries[i].1);
                    }
                    i += 1;
                }
                assert(entries@.skip(i as int).len() == 0);
                None
            },
            _ => None,
        }
    }

    /// The element at `index` of an array.
    pub fn element(&self, index: usize) -> (r: Option<&Json>)
        ensures
            match r {
                Some(value) => self.spec_element(index as int) == Some(*value),
                None => self.spec_element(index as int) is None,
            },
    {
        match self {
            Json::Array(items) => if index < items.len() {
                Some(&items[index])
            } else {
                None
            },
            _ => None,
        }
    }

    /// The decimal text of a number.
    pub fn number(&self) -> (r: Option<&String>)
        ensures
            match r {
                Some(text) => self.spec_number() == Some(text@),
                None => self.spec_number() is None,
            },
    {
        match self {
            Json::Number(text) => Some(text),
            _ => None,
        }
    }
}

} // verus!
