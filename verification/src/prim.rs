//! The primitive environment: names bound once at context construction.

use vstd::prelude::*;
use std::rc::Rc;
use crate::domain::{rc_dup, Value};

verus! {

/// One primitive: its name, argument count, type, and the value the name
/// denotes.  The default entries are all constants, so their arity is zero.
#[derive(Debug, PartialEq)]
pub struct PrimEntry {
    pub name: String,
    pub arity: usize,
    pub ty: Rc<Value>,
    pub value: Rc<Value>,
}

/// The first entry with the given name, scanning from the front.
pub open spec fn prim_lookup(entries: Seq<PrimEntry>, name: Seq<char>) -> Option<PrimEntry>
    decreases entries.len(),
{
    if entries.len() == 0 {
        None
    } else if entries[0].name@ == name {
        Some(entries[0])
    } else {
        prim_lookup(entries.drop_first(), name)
    }
}

/// The primitive environment.
#[derive(Debug, PartialEq)]
pub struct PrimEnv {
    pub entries: Vec<PrimEntry>,
}

impl PrimEnv {
    /// An empty environment.
    pub fn new() -> (r: PrimEnv)
        ensures
            r.entries@ =~= Seq::<PrimEntry>::empty(),
    {
        PrimEnv { entries: Vec::new() }
    }

    /// Add an entry at the end.
    pub fn add(&mut self, entry: PrimEntry)
        ensures
            final(self).entries@ =~= old(self).entries@.push(entry),
    {
        self.entries.push(entry);
    }

    /// Find the first entry with the given name.
    #[verifier::loop_isolation(false)]
    pub fn lookup(&self, name: &String) -> (r: Option<&PrimEntry>)
        ensures
            match r {
                Some(e) => prim_lookup(self.entries@, name@) == Some(*e),
                None => prim_lookup(self.entries@, name@) is None,
            },
    {
        let n = self.entries.len();
        let mut i: usize = 0;
        proof {
            assert(self.entries@.skip(0) =~= self.entries@);
        }
        while i < n
            invariant
                i <= n,
                n == self.entries@.len(),
                prim_lookup(self.entries@, name@) == prim_lookup(self.entries@.skip(i as int), name@),
            decreases n - i,
        {
            if self.entries[i].name == *name {
                proof {
                    assert(self.entries@.skip(i as int)[0] == self.entries@[i as int]);
                }
                return Some(&self.entries[i]);
            }
            proof {
                assert(self.entries@.skip(i as int).drop_first() =~= self.entries@.skip(
                    i as int + 1,
                ));
            }
            i += 1;
        }
        proof {
            assert(self.entries@.skip(n as int).len() == 0);
        }
        None
    }

    /// The value a primitive name denotes, if the name is bound.
    pub fn lookup_value(&self, name: &String) -> (r: Option<Rc<Value>>)
        ensures
            match r {
                Some(v) => (prim_lookup(self.entries@, name@) matches Some(e) && v == e.value),
                None => prim_lookup(self.entries@, name@) is None,
            },
    {
        match self.lookup(name) {
            Some(e) => Some(rc_dup(&e.value)),
            None => None,
        }
    }
}

} // verus!
