//! Plain models of the attribute records carried in daemon replies.
//!
//! A reply record is a string-keyed map of variant values.  The library
//! holds such a record as an [`AttrMap`] of plain values, so that the
//! logic reading it can be verified; the caller converts the wire form
//! into this one before handing a reply to the library.

use vstd::prelude::*;
use crate::text::str_eq;

verus! {

/// A plain attribute value, as a reply record carries it.
#[derive(Debug, Clone)]
pub enum AttrValue {
    Str(String),
    Bool(bool),
    U64(u64),
}

/// A string-keyed map of plain attribute values; the most recently
/// inserted binding of a key is the one in force.
#[derive(Debug, Clone)]
pub struct AttrMap {
    entries: Vec<(String, AttrValue)>,
}

/// The binding of `key` in `s`, later entries taking precedence.
spec fn seq_get(s: Seq<(String, AttrValue)>, key: Seq<char>) -> Option<AttrValue>
    decreases s.len(),
{
    if s.len() == 0 {
        None
    } else if s.last().0@ == key {
        Some(s.last().1)
    } else {
        seq_get(s.drop_last(), key)
    }
}

impl AttrMap {
    /// The value bound to `key`, if any.
    pub closed spec fn spec_get(self, key: Seq<char>) -> Option<AttrValue> {
        seq_get(self.entries@, key)
    }

    /// An attribute map with no bindings.
    pub fn new() -> (m: AttrMap)
        ensures
            forall|k: Seq<char>| #[trigger] m.spec_get(k) is None,
    {
        AttrMap { entries: Vec::new() }
    }

    /// Binds `key` to `value`, shadowing any earlier binding of `key` and
    /// leaving every other key untouched.
    pub fn insert(&mut self, key: String, value: AttrValue)
        ensures
            final(self).spec_get(key@) == Some(value),
            forall|k: Seq<char>|
                k != key@ ==> #[trigger] final(self).spec_get(k) == old(self).spec_get(k),
    {
        let ghost pre = self.entries@;
        self.entries.push((key, value));
        proof {
            assert(self.entries@.drop_last() =~= pre);
        }
    }

    /// Looks `key` up, returning the binding in force.
    pub fn get(&self, key: &str) -> (r: Option<&AttrValue>)
        ensures
            match r {
                Some(v) => self.spec_get(key@) == Some(*v),
                None => self.spec_get(key@) is None,
            },
    {
        let mut i: usize = self.entries.len();
        proof {
            assert(self.entries@.take(i as int) =~= self.entries@);
        }
        while i > 0
            invariant
                i <= self.entries@.len(),
                seq_get(self.entries@, key@) == seq_get(self.entries@.take(i as int), key@),
            decreases i,
        {
            let idx = i - 1;
            let ghost taken = self.entries@.take(i as int);
            proof {
                assert(taken.last() == self.entries@[idx as int]);
                assert(taken.drop_last() =~= self.entries@.take(idx as int));
            }
            if str_eq(self.entries[idx].0.as_str(), key) {
                return Some(&self.entries[idx].1);
            }
            i = idx;
        }
        None
    }

    /// Looks `key` up, accepting only a string value.
    pub fn get_str(&self, key: &str) -> (r: Option<&String>)
        ensures
            match r {
                Some(s) => self.spec_get(key@) == Some(AttrValue::Str(*s)),
                None => !(self.spec_get(key@) matches Some(AttrValue::Str(_))),
            },
    {
        match self.get(key) {
            Some(AttrValue::Str(s)) => Some(s),
            _ => None,
        }
    }

    /// Looks `key` up, accepting only a boolean value.
    pub fn get_bool(&self, key: &str) -> (r: Option<bool>)
        ensures
            match r {
                Some(b) => self.spec_get(key@) == Some(AttrValue::Bool(b)),
                None => !(self.spec_get(key@) matches Some(AttrValue::Bool(_))),
            },
    {
        match self.get(key) {
            Some(AttrValue::Bool(b)) => Some(*b),
            _ => None,
        }
    }

    /// Looks `key` up, accepting only an unsigned integer value.
    pub fn get_u64(&self, key: &str) -> (r: Option<u64>)
        ensures
            match r {
                Some(n) => self.spec_get(key@) == Some(AttrValue::U64(n)),
                None => !(self.spec_get(key@) matches Some(AttrValue::U64(_))),
            },
    {
        match self.get(key) {
            Some(AttrValue::U64(n)) => Some(*n),
            _ => None,
        }
    }
}

/// The string bound to `key` in `m`, if the binding is a string.
pub open spec fn spec_get_str(m: AttrMap, key: Seq<char>) -> Option<String> {
    match m.spec_get(key) {
        Some(AttrValue::Str(s)) => Some(s),
        _ => None,
    }
}

/// The boolean bound to `key` in `m`, if the binding is a boolean.
pub open spec fn spec_get_bool(m: AttrMap, key: Seq<char>) -> Option<bool> {
    match m.spec_get(key) {
        Some(AttrValue::Bool(b)) => Some(b),
        _ => None,
    }
}

/// The unsigned integer bound to `key` in `m`, if the binding is one.
pub open spec fn spec_get_u64(m: AttrMap, key: Seq<char>) -> Option<u64> {
    match m.spec_get(key) {
        Some(AttrValue::U64(n)) => Some(n),
        _ => None,
    }
}

/// A package-listing reply: one attribute record per matched package.
#[derive(Debug, Clone)]
pub struct ListResults {
    pub items: Vec<AttrMap>,
}

} // verus!
