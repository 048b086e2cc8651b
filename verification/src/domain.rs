//! The semantic domain: values, neutrals, spines and closures, as produced by
//! evaluation.
//!
//! Values use de Bruijn levels, so a value built under one context prefix
//! remains meaningful under any extension.  Environments are persistent
//! vectors (they only ever grow at the tail), so closures share them rather
//! than copy them.

use vstd::prelude::*;
use std::rc::Rc;
use crate::syntax::{AppMode, LiteralIntro, LiteralType, Term};

verus! {

/// Relies on `Rc::clone`: the returned handle is the same shared value.
#[verifier::external_body]
pub fn rc_dup<T>(r: &Rc<T>) -> (res: Rc<T>)
    ensures
        res == *r,
{
    Rc::clone(r)
}

/// The head of a neutral value: a stuck variable or metavariable.
#[derive(Debug, Clone, Copy, PartialEq, Eq, Structural)]
pub enum Head {
    /// A free variable, by de Bruijn level.
    Var(usize),
    /// A metavariable, by its index in the metavariable store.
    Meta(usize),
}

/// A persistent evaluation environment: the value bound at each level, in
/// level order.  Backed by `im::Vector`, so extension and duplication share
/// structure instead of copying.
#[verifier::external_body]
#[derive(Debug, PartialEq)]
pub struct Env {
    inner: im::Vector<Rc<Value>>,
}

/// The entries of an environment, in level order.
pub uninterp spec fn env_entries(e: Env) -> Seq<Value>;

impl Env {
    /// Relies on `im::Vector::new`: the empty vector.
    #[verifier::external_body]
    pub fn new() -> (r: Env)
        ensures
            env_entries(r) == Seq::<Value>::empty(),
    {
        Env { inner: im::Vector::new() }
    }

    /// Relies on `im::Vector::clone`: a clone is the same vector, shared
    /// structurally.
    #[verifier::external_body]
    pub fn dup(&self) -> (r: Env)
        ensures
            r == *self,
    {
        Env { inner: self.inner.clone() }
    }

    /// Relies on `im::Vector::len`: the number of entries.
    #[verifier::external_body]
    pub fn size(&self) -> (r: usize)
        ensures
            r == env_entries(*self).len(),
    {
        self.inner.len()
    }

    /// Relies on `im::Vector::push_back`: appends one entry at the tail,
    /// leaving the rest unchanged.
    #[verifier::external_body]
    pub fn add_entry(&mut self, value: Rc<Value>)
        ensures
            env_entries(*final(self)) == env_entries(*old(self)).push(*value),
    {
        self.inner.push_back(value);
    }

    /// Relies on `im::Vector::get` and `Rc::clone`: the entry at `level`, if
    /// `level` is in range.
    #[verifier::external_body]
    pub fn get_level(&self, level: usize) -> (r: Option<Rc<Value>>)
        ensures
            match r {
                Some(v) => level < env_entries(*self).len() && *v == env_entries(*self)[level as int],
                None => level >= env_entries(*self).len(),
            },
    {
        self.inner.get(level).cloned()
    }
}

/// A suspended body together with the environment it captured.  Applying the
/// closure extends the environment with the argument and evaluates the body.
#[derive(Debug, PartialEq)]
pub struct AppClosure {
    pub term: Rc<Term>,
    pub env: Env,
}

/// The clauses of a literal elimination, suspended over their environment.
#[derive(Debug, PartialEq)]
pub struct LiteralClosure {
    pub clauses: Rc<Vec<(LiteralIntro, Rc<Term>)>>,
    pub default: Rc<Term>,
    pub env: Env,
}

/// One pending elimination on a neutral value.
#[derive(Debug, PartialEq)]
pub enum Elim {
    /// Function application with the given mode and argument.
    Fun(AppMode, Rc<Value>),
    /// Record projection at the given label.
    Record(String),
    /// Literal elimination with the given suspended clauses.
    Literal(LiteralClosure),
}

/// Semantic values.  A `Neutral` is a computation stuck on its head, with the
/// ordered spine of eliminations that were applied to it; its head is never a
/// `FunIntro` or `RecordIntro`.
#[derive(Debug, PartialEq)]
pub enum Value {
    Neutral(Head, Vec<Elim>),
    LiteralType(LiteralType),
    LiteralIntro(LiteralIntro),
    /// A dependent function type: mode, parameter type, body type closure.
    FunType(AppMode, Rc<Value>, AppClosure),
    /// A function: mode and body closure.
    FunIntro(AppMode, AppClosure),
    /// A record type with at least one field: binder name hint, label, field
    /// type, and a closure for the rest of the record type.
    RecordTypeExtend(Option<String>, String, Rc<Value>, AppClosure),
    RecordTypeEmpty,
    /// A record value: ordered fields of label and value.
    RecordIntro(Vec<(String, Rc<Value>)>),
    /// A universe at the given level.
    Universe(usize),
}

/// Whether a value is the variable with the given level: a neutral with that
/// head and an empty spine.
pub open spec fn is_var_value(v: Value, level: usize) -> bool {
    match v {
        Value::Neutral(h, spine) => h == Head::Var(level) && spine@.len() == 0,
        _ => false,
    }
}

/// Whether a value is as evaluated as the given store allows: it is not a
/// neutral headed by a metavariable that the store has already solved.
/// Forcing returns only such values, and leaves them unchanged.
pub open spec fn is_forced_value(store: Seq<crate::meta::MetaEntry>, v: Value) -> bool {
    match v {
        Value::Neutral(h, _) => match h {
            Head::Meta(m) => !(m < store.len() && store[m as int] is Solved),
            Head::Var(_) => true,
        },
        _ => true,
    }
}

/// Whether a value is the bare metavariable `meta`: a neutral with that head
/// and an empty spine.
pub open spec fn is_meta_value(v: Value, meta: usize) -> bool {
    match v {
        Value::Neutral(h, spine) => h == Head::Meta(meta) && spine@.len() == 0,
        _ => false,
    }
}

impl Value {
    /// The variable with the given de Bruijn level: a neutral with an empty
    /// spine.
    pub fn var(level: usize) -> (r: Rc<Value>)
        ensures
            is_var_value(*r, level),
    {
        Rc::new(Value::Neutral(Head::Var(level), Vec::new()))
    }

    /// A universe value at the given level.
    pub fn universe(level: usize) -> (r: Rc<Value>)
        ensures
            *r == Value::Universe(level),
    {
        Rc::new(Value::Universe(level))
    }

    /// A literal type value.
    pub fn literal_ty(ty: LiteralType) -> (r: Rc<Value>)
        ensures
            *r == Value::LiteralType(ty),
    {
        Rc::new(Value::LiteralType(ty))
    }

    /// A literal value.
    pub fn literal_intro(intro: LiteralIntro) -> (r: Rc<Value>)
        ensures
            *r == Value::LiteralIntro(intro),
    {
        Rc::new(Value::LiteralIntro(intro))
    }
}

} // verus!
