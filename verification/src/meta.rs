//! The metavariable store.
//!
//! Metavariables are placeholders inserted by the checker; the unifier
//! mutates each from unsolved to solved exactly once, and entries are never
//! deleted.  Indices into the store are therefore stable.

use vstd::prelude::*;
use std::rc::Rc;
use crate::domain::{rc_dup, Value};
use crate::errors::TypeError;
use crate::syntax::Span;

verus! {

/// One entry of the store: either still unsolved, with the span of the raw
/// node that introduced it and the type it is expected to have, or solved to
/// a value.
#[derive(Debug, PartialEq)]
pub enum MetaEntry {
    Unsolved { span: Span, ty: Rc<Value> },
    Solved { value: Rc<Value> },
}

/// The store: entries indexed by the order of their insertion.
#[derive(Debug, PartialEq)]
pub struct MetaStore {
    pub entries: Vec<MetaEntry>,
}

/// How a store may evolve: it only grows, and a solved entry never changes
/// again.  (An unsolved entry may become solved.)
pub open spec fn store_extends(new: Seq<MetaEntry>, old: Seq<MetaEntry>) -> bool {
    &&& new.len() >= old.len()
    &&& forall|i: int|
        0 <= i < old.len() ==> (new[i] == old[i] || (old[i] is Unsolved && new[i] is Solved))
}

/// Store evolution is transitive: two successive evolutions compose.
pub proof fn lemma_store_extends_trans(s3: Seq<MetaEntry>, s2: Seq<MetaEntry>, s1: Seq<MetaEntry>)
    requires
        store_extends(s3, s2),
        store_extends(s2, s1),
    ensures
        store_extends(s3, s1),
{
}

impl MetaStore {
    /// An empty store.
    pub fn new() -> (r: MetaStore)
        ensures
            r.entries@ =~= Seq::<MetaEntry>::empty(),
    {
        MetaStore { entries: Vec::new() }
    }

    /// The number of entries.
    pub fn len(&self) -> (r: usize)
        ensures
            r == self.entries@.len(),
    {
        self.entries.len()
    }

    /// Insert a fresh unsolved entry, returning its index.  The store grows
    /// monotonically: existing entries are untouched.
    pub fn add_unsolved(&mut self, span: Span, ty: Rc<Value>) -> (r: usize)
        ensures
            r == old(self).entries@.len(),
            final(self).entries@ =~= old(self).entries@.push(MetaEntry::Unsolved { span, ty }),
            store_extends(final(self).entries@, old(self).entries@),
    {
        let index = self.entries.len();
        self.entries.push(MetaEntry::Unsolved { span, ty });
        index
    }

    /// Record the solution of a currently unsolved entry.  No other entry
    /// changes, so the new store extends the old one.
    pub fn add_solved(&mut self, index: usize, value: Rc<Value>)
        requires
            index < old(self).entries@.len(),
            old(self).entries@[index as int] is Unsolved,
        ensures
            final(self).entries@ =~= old(self).entries@.update(
                index as int,
                MetaEntry::Solved { value },
            ),
            store_extends(final(self).entries@, old(self).entries@),
    {
        self.entries.set(index, MetaEntry::Solved { value });
    }

    /// Look an entry up.
    pub fn lookup(&self, index: usize) -> (r: Option<&MetaEntry>)
        ensures
            match r {
                Some(e) => index < self.entries@.len() && *e == self.entries@[index as int],
                None => index >= self.entries@.len(),
            },
    {
        if index < self.entries.len() {
            Some(&self.entries[index])
        } else {
            None
        }
    }

    /// The post-pass after checking a declaration: report the first entry
    /// that is still unsolved, with the span that introduced it.  Succeeds
    /// exactly when every entry is solved.
    #[verifier::loop_isolation(false)]
    pub fn report_unsolved(&self) -> (r: Result<(), TypeError>)
        ensures
            r is Ok <==> (forall|i: int| 0 <= i < self.entries@.len() ==> self.entries@[i] is Solved),
            r matches Err(e) ==> (exists|i: int|
                0 <= i < self.entries@.len() && (#[trigger] self.entries@[i]) is Unsolved && e == (
                TypeError::UnsolvedMeta { span: self.entries@[i]->Unsolved_span })),
    {
        let n = self.entries.len();
        let mut i: usize = 0;
        while i < n
            invariant
                i <= n,
                forall|j: int| 0 <= j < i ==> self.entries@[j] is Solved,
            decreases n - i,
        {
            match &self.entries[i] {
                MetaEntry::Unsolved { span, .. } => {
                    return Err(TypeError::UnsolvedMeta { span: *span });
                },
                MetaEntry::Solved { .. } => {},
            }
            i += 1;
        }
        Ok(())
    }

    /// The solution of the entry at `index`, if it has one.
    pub fn lookup_solved(&self, index: usize) -> (r: Option<Rc<Value>>)
        ensures
            match r {
                Some(v) => index < self.entries@.len()
                    && (self.entries@[index as int] matches MetaEntry::Solved { value } && v == value),
                None => index >= self.entries@.len() || self.entries@[index as int] is Unsolved,
            },
    {
        if index < self.entries.len() {
            match &self.entries[index] {
                MetaEntry::Solved { value } => Some(rc_dup(value)),
                MetaEntry::Unsolved { .. } => None,
            }
        } else {
            None
        }
    }
}

} // verus!
