//! The values a recipe file can hold before they are given a type.
//!
//! A recipe is written as TOML. Fields such as the git source or a
//! dependency list may be written in more than one shape, so they arrive
//! here as untyped values and are resolved into the recipe model by the
//! conversions of the other modules.

use crate::text::str_eq;
use vstd::prelude::*;

verus! {

/// An untyped recipe value. The variants are those of a TOML value; a float
/// and a date are kept as bare markers, since no recipe field reads them.
#[derive(Debug, PartialEq, Eq)]
pub enum Value {
    String(String),
    Integer(i64),
    Float,
    Boolean(bool),
    Datetime,
    Array(Vec<Value>),
    Table(Vec<(String, Value)>),
}

/// The value of the first entry whose key is `key`.
pub open spec fn lookup(entries: Seq<(String, Value)>, key: Seq<char>) -> Option<Value>
    decreases entries.len(),
{
    if entries.len() == 0 {
        None
    } else if entries[0].0@ == key {
        Some(entries[0].1)
    } else {
        lookup(entries.skip(1), key)
    }
}

/// The texts of `items`, if every one of them is a string.
pub open spec fn texts(items: Seq<Value>) -> Option<Seq<Seq<char>>>
    decreases items.len(),
{
    if items.len() == 0 {
        Some(Seq::empty())
    } else {
        match (texts(items.drop_last()), items.last()) {
            (Some(head), Value::String(s)) => Some(head.push(s@)),
            _ => None,
        }
    }
}

impl Value {
    /// The text of a string value.
    pub open spec fn text(self) -> Option<Seq<char>> {
        match self {
            Value::String(s) => Some(s@),
            _ => None,
        }
    }

    /// The value under `key` of a table; `None` for a missing key and for a
    /// value that is no table.
    pub open spec fn entry(self, key: Seq<char>) -> Option<Value> {
        match self {
            Value::Table(entries) => lookup(entries@, key),
            _ => None,
        }
    }

    /// The texts of an array whose items are all strings.
    pub open spec fn text_list(self) -> Option<Seq<Seq<char>>> {
        match self {
            Value::Array(items) => texts(items@),
            _ => None,
        }
    }

    pub fn as_str(&self) -> (r: Option<&str>)
        ensures
            match r {
                Some(s) => self.text() == Some(s@),
                None => self.text() is None,
            },
    {
        match self {
            Value::String(s) => Some(s.as_str()),
            _ => None,
        }
    }

    pub fn get(&self, key: &str) -> (r: Option<&Value>)
        ensures
            match r {
                Some(v) => self.entry(key@) == Some(*v),
                None => self.entry(key@) is None,
            },
    {
        match self {
            Value::Table(entries) => {
                let mut i: usize = 0;
                assert(entries@.skip(0) == entries@);
                while i < entries.len()
                    invariant
                        *self == Value::Table(*entries),
                        i <= entries@.len(),
                        lookup(entries@, key@) == lookup(entries@.skip(i as int), key@),
                    decreases entries@.len() - i,
                {
                    if str_eq(entries[i].0.as_str(), key) {
                        return Some(&entries[i].1);
                    }
                    assert(entries@.skip(i as int).skip(1) == entries@.skip(i + 1));
                    i += 1;
                }
                None
            },
            _ => None,
        }
    }

    /// The texts of an array of strings.
    pub fn as_string_list(&self) -> (r: Option<Vec<String>>)
        ensures
            r.deep_view() == self.text_list(),
    {
        match self {
            Value::Array(items) => {
                let mut out: Vec<String> = Vec::new();
                let mut i: usize = 0;
                while i < items.len()
                    invariant
                        *self == Value::Array(*items),
                        i <= items@.len(),
                        texts(items@.take(i as int)) == Some(out.deep_view()),
                    decreases items@.len() - i,
                {
                    assert(items@.take(i + 1).drop_last() == items@.take(i as int));
                    match &items[i] {
                        Value::String(s) => {
                            out.push(s.clone());
                        },
                        _ => {
                            proof {
                                lemma_texts_prefix(items@, i + 1);
                            }
                            return None;
                        },
                    }
                    i += 1;
                }
                assert(items@.take(items@.len() as int) == items@);
                Some(out)
            },
            _ => None,
        }
    }
}

/// A list that holds something other than strings up to `n` holds it overall.
proof fn lemma_texts_prefix(items: Seq<Value>, n: int)
    requires
        0 <= n <= items.len(),
        texts(items.take(n)) is None,
    ensures
        texts(items) is None,
    decreases items.len() - n,
{
    if n < items.len() {
        assert(items.take(n + 1).drop_last() == items.take(n));
        lemma_texts_prefix(items, n + 1);
    } else {
        assert(items.take(n) == items);
    }
}

} // verus!
