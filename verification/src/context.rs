//! The elaboration context.
//!
//! The context threads five structures that evolve together: the primitive
//! environment, the values and types bound at each level, the optional
//! display names of those binders, a map from user names to the level of
//! their most recent binding (giving lexical shadowing), and the levels of
//! the parameters currently in scope (excluding let-bound values), which
//! form the spine of every fresh metavariable.
//!
//! Name and level structures are persistent `im` collections, so duplicating
//! a context for a scoped check shares structure instead of copying.

use vstd::prelude::*;
use std::rc::Rc;
use crate::domain::{env_entries, is_forced_value, is_var_value, rc_dup, AppClosure, Env, Value};
use crate::errors::TypeError;
use crate::meta::{store_extends, MetaStore};
use crate::prim::{PrimEntry, PrimEnv};
use crate::syntax::{AppMode, LiteralIntro, LiteralType, Span, Term};

verus! {

/// The display names of the binders in scope, in level order; `None` for a
/// binder that has no user-visible name.
#[verifier::external_body]
#[derive(Debug, PartialEq)]
pub struct NameEnv {
    inner: im::Vector<Option<String>>,
}

/// The entries of a name environment, in level order.
pub uninterp spec fn name_entries(e: NameEnv) -> Seq<Option<Seq<char>>>;

impl NameEnv {
    /// Relies on `im::Vector::new`: the empty vector.
    #[verifier::external_body]
    pub fn new() -> (r: NameEnv)
        ensures
            name_entries(r) == Seq::<Option<Seq<char>>>::empty(),
    {
        NameEnv { inner: im::Vector::new() }
    }

    /// Relies on `im::Vector::clone`: a clone is the same vector.
    #[verifier::external_body]
    pub fn dup(&self) -> (r: NameEnv)
        ensures
            r == *self,
    {
        NameEnv { inner: self.inner.clone() }
    }

    /// Relies on `im::Vector::push_back`: appends one entry at the tail.
    #[verifier::external_body]
    pub fn push(&mut self, name: Option<String>)
        ensures
            name_entries(*final(self)) == name_entries(*old(self)).push(
                match name {
                    Some(n) => Some(n@),
                    None => None,
                },
            ),
    {
        self.inner.push_back(name);
    }

    /// Relies on `im::Vector::get` and the clone of the entry: the display
    /// name recorded at `level`, if `level` is in range.
    #[verifier::external_body]
    pub fn get(&self, level: usize) -> (r: Option<Option<String>>)
        ensures
            match r {
                Some(entry) => level < name_entries(*self).len() && (match entry {
                    Some(n) => name_entries(*self)[level as int] == Some(n@),
                    None => name_entries(*self)[level as int] is None,
                }),
                None => level >= name_entries(*self).len(),
            },
    {
        self.inner.get(level).cloned()
    }
}

/// The levels of the parameters currently in scope, in the order they were
/// bound.
#[verifier::external_body]
#[derive(Debug, PartialEq)]
pub struct LevelSeq {
    inner: im::Vector<usize>,
}

/// The entries of a level sequence, in binding order.
pub uninterp spec fn level_entries(e: LevelSeq) -> Seq<usize>;

impl LevelSeq {
    /// Relies on `im::Vector::new`: the empty vector.
    #[verifier::external_body]
    pub fn new() -> (r: LevelSeq)
        ensures
            level_entries(r) == Seq::<usize>::empty(),
    {
        LevelSeq { inner: im::Vector::new() }
    }

    /// Relies on `im::Vector::clone`: a clone is the same vector.
    #[verifier::external_body]
    pub fn dup(&self) -> (r: LevelSeq)
        ensures
            r == *self,
    {
        LevelSeq { inner: self.inner.clone() }
    }

    /// Relies on `im::Vector::push_back`: appends one entry at the tail.
    #[verifier::external_body]
    pub fn push(&mut self, level: usize)
        ensures
            level_entries(*final(self)) == level_entries(*old(self)).push(level),
    {
        self.inner.push_back(level);
    }

    /// Relies on `im::Vector::iter`: the entries, in order, as a plain
    /// vector.
    #[verifier::external_body]
    pub fn to_vec(&self) -> (r: Vec<usize>)
        ensures
            r@ == level_entries(*self),
    {
        self.inner.iter().copied().collect()
    }
}

/// The map from a user name to the level at which it was most recently
/// bound.
#[verifier::external_body]
#[derive(Debug, PartialEq)]
pub struct NameMap {
    inner: im::HashMap<String, usize>,
}

/// The bindings of a name map.
pub uninterp spec fn name_map_entries(m: NameMap) -> Map<Seq<char>, usize>;

impl NameMap {
    /// Relies on `im::HashMap::new`: the empty map.
    #[verifier::external_body]
    pub fn new() -> (r: NameMap)
        ensures
            forall|n: Seq<char>| !name_map_entries(r).contains_key(n),
    {
        NameMap { inner: im::HashMap::new() }
    }

    /// Relies on `im::HashMap::clone`: a clone is the same map.
    #[verifier::external_body]
    pub fn dup(&self) -> (r: NameMap)
        ensures
            r == *self,
    {
        NameMap { inner: self.inner.clone() }
    }

    /// Relies on `im::HashMap::insert`: binds `name` to `level`, replacing
    /// any previous binding of the same name.
    #[verifier::external_body]
    pub fn insert(&mut self, name: String, level: usize)
        ensures
            name_map_entries(*final(self)) == name_map_entries(*old(self)).insert(name@, level),
    {
        self.inner.insert(name, level);
    }

    /// Relies on `im::HashMap::get`: the binding of `name`, if any.
    #[verifier::external_body]
    pub fn get(&self, name: &String) -> (r: Option<usize>)
        ensures
            match r {
                Some(level) => name_map_entries(*self).contains_key(name@) && name_map_entries(
                    *self,
                )[name@] == level,
                None => !name_map_entries(*self).contains_key(name@),
            },
    {
        self.inner.get(name).copied()
    }
}

/// Copy a primitive environment entry by entry.
#[verifier::loop_isolation(false)]
pub fn dup_prim_env(prims: &PrimEnv) -> (r: PrimEnv)
    ensures
        r.entries@ == prims.entries@,
{
    let mut out = PrimEnv::new();
    let n = prims.entries.len();
    let mut i: usize = 0;
    while i < n
        invariant
            i <= n,
            out.entries@ =~= prims.entries@.subrange(0, i as int),
        decreases n - i,
    {
        let e = &prims.entries[i];
        out.add(
            PrimEntry {
                name: e.name.clone(),
                arity: e.arity,
                ty: rc_dup(&e.ty),
                value: rc_dup(&e.value),
            },
        );
        i += 1;
    }
    proof {
        assert(out.entries@ =~= prims.entries@);
    }
    out
}

/// Local elaboration context.
#[derive(Debug, PartialEq)]
pub struct Context {
    /// Primitive entries.
    pub prims: PrimEnv,
    /// Values to be used during evaluation, in level order.
    pub values: Env,
    /// Types of the entries in the context, in level order.
    pub tys: Env,
    /// Display names of the entries in the context, in level order.
    pub names: NameEnv,
    /// User names mapped to the level of their most recent binding.
    pub names_to_levels: NameMap,
    /// Levels of the parameters in scope, used to form meta spines.
    pub bound_levels: LevelSeq,
}

/// A term of the shape `Meta(m) arg_k ... arg_1` where the arguments are the
/// variables for `levels`, applied explicitly in order.
pub open spec fn is_meta_spine_term(t: Term, m: usize, levels: Seq<usize>, size: nat) -> bool
    decreases levels.len(),
{
    if levels.len() == 0 {
        t == Term::Meta(m)
    } else {
        &&& t matches Term::FunElim(f, mode, a)
        &&& mode == AppMode::Explicit
        &&& *a == Term::Var((size - levels.last() - 1) as usize)
        &&& levels.last() < size
        &&& is_meta_spine_term(*f, m, levels.drop_last(), size)
    }
}

impl Context {
    /// The invariants tying the five structures together: values, types and
    /// names line up level by level, and every level the name map or the
    /// bound-levels sequence mentions is in scope.
    pub open spec fn wf(self) -> bool {
        &&& env_entries(self.tys).len() == env_entries(self.values).len()
        &&& name_entries(self.names).len() == env_entries(self.values).len()
        &&& forall|n: Seq<char>|
            name_map_entries(self.names_to_levels).contains_key(n)
                ==> #[trigger] name_map_entries(self.names_to_levels)[n] < env_entries(
                self.values,
            ).len()
        &&& forall|i: int|
            0 <= i < level_entries(self.bound_levels).len()
                ==> #[trigger] level_entries(self.bound_levels)[i] < env_entries(
                self.values,
            ).len()
    }

    /// Create a new, empty context.
    pub fn empty() -> (r: Context)
        ensures
            r.wf(),
            env_entries(r.values).len() == 0,
            env_entries(r.tys).len() == 0,
            forall|n: Seq<char>| !name_map_entries(r.names_to_levels).contains_key(n),
            level_entries(r.bound_levels).len() == 0,
            r.prims.entries@.len() == 0,
    {
        Context {
            prims: PrimEnv::new(),
            values: Env::new(),
            tys: Env::new(),
            names: NameEnv::new(),
            names_to_levels: NameMap::new(),
            bound_levels: LevelSeq::new(),
        }
    }

    /// Duplicate the context; every structure is shared, not copied.
    pub fn dup(&self) -> (r: Context)
        ensures
            r.prims.entries@ == self.prims.entries@,
            r.values == self.values,
            r.tys == self.tys,
            r.names == self.names,
            r.names_to_levels == self.names_to_levels,
            r.bound_levels == self.bound_levels,
            self.wf() ==> r.wf(),
    {
        Context {
            prims: dup_prim_env(&self.prims),
            values: self.values.dup(),
            tys: self.tys.dup(),
            names: self.names.dup(),
            names_to_levels: self.names_to_levels.dup(),
            bound_levels: self.bound_levels.dup(),
        }
    }

    /// Primitive entries.
    pub fn prims(&self) -> (r: &PrimEnv)
        ensures
            r == &self.prims,
    {
        &self.prims
    }

    /// Values to be used during evaluation.
    pub fn values(&self) -> (r: &Env)
        ensures
            r == &self.values,
    {
        &self.values
    }

    /// The number of bindings in scope.
    pub fn size(&self) -> (r: usize)
        ensures
            r == env_entries(self.values).len(),
    {
        self.values.size()
    }

    /// Add a name-to-level substitution to the context.
    pub fn add_name(&mut self, name: String, var_level: usize)
        ensures
            name_entries(final(self).names) == name_entries(old(self).names).push(Some(name@)),
            name_map_entries(final(self).names_to_levels) == name_map_entries(
                old(self).names_to_levels,
            ).insert(name@, var_level),
            final(self).values == old(self).values,
            final(self).tys == old(self).tys,
            final(self).bound_levels == old(self).bound_levels,
            final(self).prims == old(self).prims,
    {
        self.names.push(Some(name.clone()));
        self.names_to_levels.insert(name, var_level);
    }

    /// Add a fresh definition to the context: it consumes a level but gets
    /// no user-visible name.
    pub fn add_fresh_defn(&mut self, value: Rc<Value>, ty: Rc<Value>)
        requires
            old(self).wf(),
        ensures
            final(self).wf(),
            env_entries(final(self).values) == env_entries(old(self).values).push(*value),
            env_entries(final(self).tys) == env_entries(old(self).tys).push(*ty),
            name_map_entries(final(self).names_to_levels) == name_map_entries(
                old(self).names_to_levels,
            ),
            level_entries(final(self).bound_levels) == level_entries(old(self).bound_levels),
            final(self).prims == old(self).prims,
    {
        self.names.push(None);
        self.values.add_entry(value);
        self.tys.add_entry(ty);
    }

    /// Add a definition to the context.  The binder is a definition, not a
    /// parameter: `bound_levels` is untouched.
    pub fn add_defn(&mut self, name: String, value: Rc<Value>, ty: Rc<Value>)
        requires
            old(self).wf(),
        ensures
            final(self).wf(),
            env_entries(final(self).values) == env_entries(old(self).values).push(*value),
            env_entries(final(self).tys) == env_entries(old(self).tys).push(*ty),
            name_map_entries(final(self).names_to_levels) == name_map_entries(
                old(self).names_to_levels,
            ).insert(name@, env_entries(old(self).values).len() as usize),
            level_entries(final(self).bound_levels) == level_entries(old(self).bound_levels),
            final(self).prims == old(self).prims,
    {
        let var_level = crate::var::next_level(self.values.size());
        self.add_name(name, var_level);
        self.values.add_entry(value);
        self.tys.add_entry(ty);
    }

    /// Add a fresh parameter to the context, returning the variable that
    /// points at the introduced binder.
    pub fn add_fresh_param(&mut self, ty: Rc<Value>) -> (r: Rc<Value>)
        requires
            old(self).wf(),
        ensures
            final(self).wf(),
            is_var_value(*r, env_entries(old(self).values).len() as usize),
            env_entries(final(self).values) == env_entries(old(self).values).push(*r),
            env_entries(final(self).tys) == env_entries(old(self).tys).push(*ty),
            name_map_entries(final(self).names_to_levels) == name_map_entries(
                old(self).names_to_levels,
            ),
            level_entries(final(self).bound_levels) == level_entries(old(self).bound_levels).push(
                env_entries(old(self).values).len() as usize,
            ),
            final(self).prims == old(self).prims,
    {
        let var_level = crate::var::next_level(self.values.size());
        let value = Value::var(var_level);
        self.names.push(None);
        self.values.add_entry(rc_dup(&value));
        self.tys.add_entry(ty);
        self.bound_levels.push(var_level);
        value
    }

    /// Add a parameter to the context, returning the variable that points at
    /// the introduced binder.  The new level is appended to `bound_levels`.
    pub fn add_param(&mut self, name: String, ty: Rc<Value>) -> (r: Rc<Value>)
        requires
            old(self).wf(),
        ensures
            final(self).wf(),
            is_var_value(*r, env_entries(old(self).values).len() as usize),
            env_entries(final(self).values) == env_entries(old(self).values).push(*r),
            env_entries(final(self).tys) == env_entries(old(self).tys).push(*ty),
            name_map_entries(final(self).names_to_levels) == name_map_entries(
                old(self).names_to_levels,
            ).insert(name@, env_entries(old(self).values).len() as usize),
            level_entries(final(self).bound_levels) == level_entries(old(self).bound_levels).push(
                env_entries(old(self).values).len() as usize,
            ),
            final(self).prims == old(self).prims,
    {
        let var_level = crate::var::next_level(self.values.size());
        self.add_name(name, var_level);
        let value = Value::var(var_level);
        self.values.add_entry(rc_dup(&value));
        self.tys.add_entry(ty);
        self.bound_levels.push(var_level);
        value
    }

    /// Create a fresh metavariable of the given expected type and return it
    /// applied to every currently bound parameter, as explicit arguments in
    /// binding order.  This is exactly the spine that the solver later
    /// expects to be a pattern.
    #[verifier::loop_isolation(false)]
    pub fn new_meta(&self, metas: &mut MetaStore, span: Span, ty: Rc<Value>) -> (r: Rc<Term>)
        requires
            self.wf(),
        ensures
            final(metas).entries@ == old(metas).entries@.push(
                crate::meta::MetaEntry::Unsolved { span, ty },
            ),
            is_meta_spine_term(
                *r,
                old(metas).entries@.len() as usize,
                level_entries(self.bound_levels),
                env_entries(self.values).len(),
            ),
    {
        let size = self.values.size();
        let meta_index = metas.add_unsolved(span, ty);
        let levels = self.bound_levels.to_vec();
        let mut acc: Rc<Term> = Rc::new(Term::Meta(meta_index));
        let n = levels.len();
        let mut i: usize = 0;
        while i < n
            invariant
                i <= n,
                is_meta_spine_term(
                    *acc,
                    meta_index,
                    levels@.subrange(0, i as int),
                    env_entries(self.values).len(),
                ),
            decreases n - i,
        {
            let level = levels[i];
            let index = crate::var::index_of_level(size, level);
            acc = Rc::new(Term::FunElim(acc, AppMode::Explicit, Term::var(index)));
            proof {
                assert(levels@.subrange(0, i + 1 as int).drop_last() =~= levels@.subrange(
                    0,
                    i as int,
                ));
            }
            i += 1;
        }
        proof {
            assert(levels@.subrange(0, n as int) =~= levels@);
        }
        acc
    }

    /// Look up the de Bruijn index and the type of a binder by its user
    /// name, honouring shadowing through the name map.
    pub fn lookup_binder(&self, name: &String) -> (r: Option<(usize, Rc<Value>)>)
        requires
            self.wf(),
        ensures
            match r {
                Some(p) => {
                    &&& name_map_entries(self.names_to_levels).contains_key(name@)
                    &&& p.0 == env_entries(self.values).len() - 1 - name_map_entries(
                        self.names_to_levels,
                    )[name@]
                    &&& *p.1 == env_entries(self.tys)[name_map_entries(self.names_to_levels)[name@] as int]
                },
                None => !name_map_entries(self.names_to_levels).contains_key(name@),
            },
    {
        match self.names_to_levels.get(name) {
            Some(var_level) => {
                let size = self.values.size();
                let var_index = crate::var::index_of_level(size, var_level);
                match self.tys.get_level(var_level) {
                    Some(ty) => Some((var_index, ty)),
                    None => None,  // unreachable under wf
                }
            },
            None => None,
        }
    }

    /// The display name of the binder at `level`, for pretty printing:
    /// `None` when the level is out of range, `Some(None)` for a binder
    /// with no user-visible name.
    pub fn display_name(&self, level: usize) -> (r: Option<Option<String>>)
        requires
            self.wf(),
        ensures
            match r {
                Some(entry) => level < env_entries(self.values).len() && (match entry {
                    Some(n) => name_entries(self.names)[level as int] == Some(n@),
                    None => name_entries(self.names)[level as int] is None,
                }),
                None => level >= env_entries(self.values).len(),
            },
    {
        self.names.get(level)
    }

    /// Apply a closure to an argument: extend its captured environment with
    /// the argument and evaluate its body there.
    pub fn app_closure(
        &self,
        metas: &MetaStore,
        span: Span,
        closure: &AppClosure,
        arg: Rc<Value>,
        fuel: u64,
    ) -> (r: Result<Rc<Value>, TypeError>)
        ensures
            fuel > 1 ==> (*closure.term matches Term::Var(i) ==> (if i == 0 {
                r matches Ok(v) && v == arg
            } else if (i as int) <= env_entries(closure.env).len() {
                r matches Ok(v) && *v == env_entries(closure.env)[env_entries(closure.env).len()
                    - (i as int)]
            } else {
                r is Err
            })),
            fuel > 1 ==> (*closure.term matches Term::LiteralIntro(li) ==> (r matches Ok(v) && *v
                == Value::LiteralIntro(li))),
            fuel > 1 ==> (*closure.term matches Term::Universe(l) ==> (r matches Ok(v) && *v
                == Value::Universe(l))),
    {
        crate::nbe::app_closure(&self.prims, metas, span, closure, arg, fuel)
    }

    /// Evaluate a term in the context's value environment.
    pub fn eval_term(&self, metas: &MetaStore, span: Span, term: &Term, fuel: u64) -> (r: Result<
        Rc<Value>,
        TypeError,
    >)
        ensures
            fuel > 0 ==> (*term matches Term::Universe(l) ==> (r matches Ok(v) && *v
                == Value::Universe(l))),
            fuel > 0 ==> (*term matches Term::LiteralType(lt) ==> (r matches Ok(v) && *v
                == Value::LiteralType(lt))),
            fuel > 0 ==> (*term matches Term::LiteralIntro(li) ==> (r matches Ok(v) && *v
                == Value::LiteralIntro(li))),
            fuel > 0 ==> (*term matches Term::Var(i) ==> (if (i as int) < env_entries(
                self.values,
            ).len() {
                r matches Ok(v) && *v == env_entries(self.values)[env_entries(self.values).len()
                    - 1 - (i as int)]
            } else {
                r is Err
            })),
    {
        crate::nbe::eval(&self.prims, metas, &self.values, span, term, fuel)
    }

    /// Read a value back into core syntax at the context's current size.
    pub fn read_back_value(
        &self,
        metas: &MetaStore,
        span: Span,
        value: &Rc<Value>,
        fuel: u64,
    ) -> (r: Result<Rc<Term>, TypeError>)
        ensures
            fuel > 0 ==> (**value matches Value::Universe(l) ==> (r matches Ok(t) && *t
                == Term::Universe(l))),
    {
        crate::nbe::read_back(&self.prims, metas, self.values.size(), span, value, fuel)
    }

    /// Fully normalize a term: evaluate it, then read it back.
    pub fn normalize_term(&self, metas: &MetaStore, span: Span, term: &Term, fuel: u64) -> (r:
        Result<Rc<Term>, TypeError>)
        ensures
            fuel > 1 ==> (*term matches Term::Universe(l) ==> (r matches Ok(t) && *t
                == Term::Universe(l))),
            fuel > 1 ==> (*term matches Term::LiteralIntro(li) ==> (r matches Ok(t) && *t
                == Term::LiteralIntro(li))),
            fuel > 4 ==> (*term matches Term::FunElim(g, m, a) ==> (*g matches Term::FunIntro(
                m2,
                body,
            ) ==> (crate::syntax::app_mode_agree(m2, m) ==> (*a matches Term::LiteralIntro(li)
                ==> (*body matches Term::Var(i) ==> (i == 0 ==> (r matches Ok(t) && *t
                == Term::LiteralIntro(li)))))))),
            fuel > 5 ==> (*term matches Term::FunElim(g, m, a) ==> (*g matches Term::Ann(gi, gt)
                ==> (*gi matches Term::FunIntro(m2, body) ==> (crate::syntax::app_mode_agree(
                m2,
                m,
            ) ==> (*a matches Term::LiteralIntro(li) ==> (*body matches Term::Var(i) ==> (i == 0
                ==> (r matches Ok(t) && *t == Term::LiteralIntro(li))))))))),
    {
        crate::nbe::normalize(&self.prims, metas, &self.values, span, term, fuel)
    }

    /// Force a value under the current store: every answer is forced, and a
    /// forced value comes back unchanged, so forcing is a fixed point while
    /// the store does not change.
    pub fn force_value(&self, metas: &MetaStore, span: Span, value: &Rc<Value>, fuel: u64) -> (r:
        Result<Rc<Value>, TypeError>)
        ensures
            r matches Ok(w) ==> is_forced_value(metas.entries@, *w),
            is_forced_value(metas.entries@, **value) ==> (r matches Ok(w) && w == *value),
            fuel > 1 ==> (**value matches Value::Neutral(crate::domain::Head::Meta(m), sp) ==> ((
            sp@.len() == 0 && (m as int) < metas.entries@.len()) ==> (
            metas.entries@[m as int] matches crate::meta::MetaEntry::Solved { value: w } ==> (
            is_forced_value(metas.entries@, *w) ==> (r matches Ok(u) && u == w))))),
    {
        crate::nbe::force(&self.prims, metas, span, value, fuel)
    }

    /// Expect `value1` to be definitionally equal to — or, for universes, a
    /// subtype of — `value2`, solving metavariables as needed.
    pub fn unify_values(
        &self,
        metas: &mut MetaStore,
        span: Span,
        value1: &Rc<Value>,
        value2: &Rc<Value>,
        fuel: u64,
    ) -> (r: Result<(), TypeError>)
        ensures
            store_extends(final(metas).entries@, old(metas).entries@),
            final(metas).entries@.len() == old(metas).entries@.len(),
            fuel > 0 ==> (**value1 matches Value::Universe(a) ==> (**value2
                matches Value::Universe(b) ==> ((r is Ok <==> a <= b) && final(metas).entries@
                == old(metas).entries@))),
            fuel > 0 ==> (**value1 matches Value::LiteralType(a) ==> (**value2
                matches Value::LiteralType(b) ==> (r is Ok <==> a == b))),
            fuel > 0 ==> (**value1 matches Value::LiteralIntro(a) ==> (**value2
                matches Value::LiteralIntro(b) ==> (r is Ok
                <==> crate::syntax::lit_intro_alpha_eq(a, b)))),
            fuel > 3 ==> (**value1 matches Value::Neutral(crate::domain::Head::Meta(m), sp) ==> ((
            sp@.len() == 0 && (m as int) < old(metas).entries@.len() && old(
                metas,
            ).entries@[m as int] is Unsolved) ==> (**value2 matches Value::LiteralIntro(li) ==> (
            r is Ok && (final(metas).entries@[m as int] matches crate::meta::MetaEntry::Solved {
                value: w,
            } && *w == Value::LiteralIntro(li)))))),
            fuel > 0 ==> (**value1 matches Value::RecordIntro(fs1) ==> (((!(**value2
                is RecordIntro)) && (!(**value2 is FunIntro)) && crate::unify::neutral_head_rigid(
                **value2,
            )) ==> (r matches Err(e) && e == (TypeError::UnsupportedRecordEta { span })))),
    {
        crate::unify::unify_values(&self.prims, metas, &self.values, span, value1, value2, fuel)
    }
}

impl Default for Context {
    /// The context with the default primitives: the literal types, and the
    /// boolean values, all bound at universe zero, each also entered in the
    /// primitive table with arity zero.
    #[verifier::rlimit(60)]
    fn default() -> (r: Context)
        ensures
            r.wf(),
            env_entries(r.values).len() == 15,
            env_entries(r.tys).len() == 15,
            level_entries(r.bound_levels).len() == 0,
            r.prims.entries@.len() == 15,
            env_entries(r.values)[0] == Value::LiteralType(LiteralType::String),
            env_entries(r.tys)[0] == Value::Universe(0),
            name_map_entries(r.names_to_levels).contains_key("String"@),
            name_map_entries(r.names_to_levels)["String"@] == 0,
            r.prims.entries@[0].name@ == "String"@,
            r.prims.entries@[0].arity == 0,
            r.prims.entries@[0].value == Value::LiteralType(LiteralType::String),
            env_entries(r.values)[1] == Value::LiteralType(LiteralType::Char),
            env_entries(r.tys)[1] == Value::Universe(0),
            name_map_entries(r.names_to_levels).contains_key("Char"@),
            name_map_entries(r.names_to_levels)["Char"@] == 1,
            r.prims.entries@[1].name@ == "Char"@,
            r.prims.entries@[1].arity == 0,
            r.prims.entries@[1].value == Value::LiteralType(LiteralType::Char),
            env_entries(r.values)[2] == Value::LiteralType(LiteralType::Bool),
            env_entries(r.tys)[2] == Value::Universe(0),
            name_map_entries(r.names_to_levels).contains_key("Bool"@),
            name_map_entries(r.names_to_levels)["Bool"@] == 2,
            r.prims.entries@[2].name@ == "Bool"@,
            r.prims.entries@[2].arity == 0,
            r.prims.entries@[2].value == Value::LiteralType(LiteralType::Bool),
            env_entries(r.values)[3] == Value::LiteralIntro(LiteralIntro::Bool(true)),
            env_entries(r.tys)[3] == Value::LiteralType(LiteralType::Bool),
            name_map_entries(r.names_to_levels).contains_key("true"@),
            name_map_entries(r.names_to_levels)["true"@] == 3,
            r.prims.entries@[3].name@ == "true"@,
            r.prims.entries@[3].arity == 0,
            r.prims.entries@[3].value == Value::LiteralIntro(LiteralIntro::Bool(true)),
            env_entries(r.values)[4] == Value::LiteralIntro(LiteralIntro::Bool(false)),
            env_entries(r.tys)[4] == Value::LiteralType(LiteralType::Bool),
            name_map_entries(r.names_to_levels).contains_key("false"@),
            name_map_entries(r.names_to_levels)["false"@] == 4,
            r.prims.entries@[4].name@ == "false"@,
            r.prims.entries@[4].arity == 0,
            r.prims.entries@[4].value == Value::LiteralIntro(LiteralIntro::Bool(false)),
            env_entries(r.values)[5] == Value::LiteralType(LiteralType::U8),
            env_entries(r.tys)[5] == Value::Universe(0),
            name_map_entries(r.names_to_levels).contains_key("U8"@),
            name_map_entries(r.names_to_levels)["U8"@] == 5,
            r.prims.entries@[5].name@ == "U8"@,
            r.prims.entries@[5].arity == 0,
            r.prims.entries@[5].value == Value::LiteralType(LiteralType::U8),
            env_entries(r.values)[6] == Value::LiteralType(LiteralType::U16),
            env_entries(r.tys)[6] == Value::Universe(0),
            name_map_entries(r.names_to_levels).contains_key("U16"@),
            name_map_entries(r.names_to_levels)["U16"@] == 6,
            r.prims.entries@[6].name@ == "U16"@,
            r.prims.entries@[6].arity == 0,
            r.prims.entries@[6].value == Value::LiteralType(LiteralType::U16),
            env_entries(r.values)[7] == Value::LiteralType(LiteralType::U32),
            env_entries(r.tys)[7] == Value::Universe(0),
            name_map_entries(r.names_to_levels).contains_key("U32"@),
            name_map_entries(r.names_to_levels)["U32"@] == 7,
            r.prims.entries@[7].name@ == "U32"@,
            r.prims.entries@[7].arity == 0,
            r.prims.entries@[7].value == Value::LiteralType(LiteralType::U32),
            env_entries(r.values)[8] == Value::LiteralType(LiteralType::U64),
            env_entries(r.tys)[8] == Value::Universe(0),
            name_map_entries(r.names_to_levels).contains_key("U64"@),
            name_map_entries(r.names_to_levels)["U64"@] == 8,
            r.prims.entries@[8].name@ == "U64"@,
            r.prims.entries@[8].arity == 0,
            r.prims.entries@[8].value == Value::LiteralType(LiteralType::U64),
            env_entries(r.values)[9] == Value::LiteralType(LiteralType::S8),
            env_entries(r.tys)[9] == Value::Universe(0),
            name_map_entries(r.names_to_levels).contains_key("S8"@),
            name_map_entries(r.names_to_levels)["S8"@] == 9,
            r.prims.entries@[9].name@ == "S8"@,
            r.prims.entries@[9].arity == 0,
            r.prims.entries@[9].value == Value::LiteralType(LiteralType::S8),
            env_entries(r.values)[10] == Value::LiteralType(LiteralType::S16),
            env_entries(r.tys)[10] == Value::Universe(0),
            name_map_entries(r.names_to_levels).contains_key("S16"@),
            name_map_entries(r.names_to_levels)["S16"@] == 10,
            r.prims.entries@[10].name@ == "S16"@,
            r.prims.entries@[10].arity == 0,
            r.prims.entries@[10].value == Value::LiteralType(LiteralType::S16),
            env_entries(r.values)[11] == Value::LiteralType(LiteralType::S32),
            env_entries(r.tys)[11] == Value::Universe(0),
            name_map_entries(r.names_to_levels).contains_key("S32"@),
            name_map_entries(r.names_to_levels)["S32"@] == 11,
            r.prims.entries@[11].name@ == "S32"@,
            r.prims.entries@[11].arity == 0,
            r.prims.entries@[11].value == Value::LiteralType(LiteralType::S32),
            env_entries(r.values)[12] == Value::LiteralType(LiteralType::S64),
            env_entries(r.tys)[12] == Value::Universe(0),
            name_map_entries(r.names_to_levels).contains_key("S64"@),
            name_map_entries(r.names_to_levels)["S64"@] == 12,
            r.prims.entries@[12].name@ == "S64"@,
            r.prims.entries@[12].arity == 0,
            r.prims.entries@[12].value == Value::LiteralType(LiteralType::S64),
            env_entries(r.values)[13] == Value::LiteralType(LiteralType::F32),
            env_entries(r.tys)[13] == Value::Universe(0),
            name_map_entries(r.names_to_levels).contains_key("F32"@),
            name_map_entries(r.names_to_levels)["F32"@] == 13,
            r.prims.entries@[13].name@ == "F32"@,
            r.prims.entries@[13].arity == 0,
            r.prims.entries@[13].value == Value::LiteralType(LiteralType::F32),
            env_entries(r.values)[14] == Value::LiteralType(LiteralType::F64),
            env_entries(r.tys)[14] == Value::Universe(0),
            name_map_entries(r.names_to_levels).contains_key("F64"@),
            name_map_entries(r.names_to_levels)["F64"@] == 14,
            r.prims.entries@[14].name@ == "F64"@,
            r.prims.entries@[14].arity == 0,
            r.prims.entries@[14].value == Value::LiteralType(LiteralType::F64),
    {
        proof {
            reveal_strlit("String"); reveal_strlit("Char"); reveal_strlit("Bool"); reveal_strlit("true"); reveal_strlit("false"); reveal_strlit("U8"); reveal_strlit("U16"); reveal_strlit("U32"); reveal_strlit("U64"); reveal_strlit("S8"); reveal_strlit("S16"); reveal_strlit("S32"); reveal_strlit("S64"); reveal_strlit("F32"); reveal_strlit("F64");
            assert("String"@ != "Char"@) by { assert("String"@.len() != "Char"@.len()); }
            assert("String"@ != "Bool"@) by { assert("String"@.len() != "Bool"@.len()); }
            assert("String"@ != "true"@) by { assert("String"@.len() != "true"@.len()); }
            assert("String"@ != "false"@) by { assert("String"@.len() != "false"@.len()); }
            assert("String"@ != "U8"@) by { assert("String"@.len() != "U8"@.len()); }
            assert("String"@ != "U16"@) by { assert("String"@.len() != "U16"@.len()); }
            assert("String"@ != "U32"@) by { assert("String"@.len() != "U32"@.len()); }
            assert("String"@ != "U64"@) by { assert("String"@.len() != "U64"@.len()); }
            assert("String"@ != "S8"@) by { assert("String"@.len() != "S8"@.len()); }
            assert("String"@ != "S16"@) by { assert("String"@.len() != "S16"@.len()); }
            assert("String"@ != "S32"@) by { assert("String"@.len() != "S32"@.len()); }
            assert("String"@ != "S64"@) by { assert("String"@.len() != "S64"@.len()); }
            assert("String"@ != "F32"@) by { assert("String"@.len() != "F32"@.len()); }
            assert("String"@ != "F64"@) by { assert("String"@.len() != "F64"@.len()); }
            assert("Char"@ != "Bool"@) by { assert("Char"@[0] != "Bool"@[0]); }
            assert("Char"@ != "true"@) by { assert("Char"@[0] != "true"@[0]); }
            assert("Char"@ != "false"@) by { assert("Char"@.len() != "false"@.len()); }
            assert("Char"@ != "U8"@) by { assert("Char"@.len() != "U8"@.len()); }
            assert("Char"@ != "U16"@) by { assert("Char"@.len() != "U16"@.len()); }
            assert("Char"@ != "U32"@) by { assert("Char"@.len() != "U32"@.len()); }
            assert("Char"@ != "U64"@) by { assert("Char"@.len() != "U64"@.len()); }
            assert("Char"@ != "S8"@) by { assert("Char"@.len() != "S8"@.len()); }
            assert("Char"@ != "S16"@) by { assert("Char"@.len() != "S16"@.len()); }
            assert("Char"@ != "S32"@) by { assert("Char"@.len() != "S32"@.len()); }
            assert("Char"@ != "S64"@) by { assert("Char"@.len() != "S64"@.len()); }
            assert("Char"@ != "F32"@) by { assert("Char"@.len() != "F32"@.len()); }
            assert("Char"@ != "F64"@) by { assert("Char"@.len() != "F64"@.len()); }
            assert("Bool"@ != "true"@) by { assert("Bool"@[0] != "true"@[0]); }
            assert("Bool"@ != "false"@) by { assert("Bool"@.len() != "false"@.len()); }
            assert("Bool"@ != "U8"@) by { assert("Bool"@.len() != "U8"@.len()); }
            assert("Bool"@ != "U16"@) by { assert("Bool"@.len() != "U16"@.len()); }
            assert("Bool"@ != "U32"@) by { assert("Bool"@.len() != "U32"@.len()); }
            assert("Bool"@ != "U64"@) by { assert("Bool"@.len() != "U64"@.len()); }
            assert("Bool"@ != "S8"@) by { assert("Bool"@.len() != "S8"@.len()); }
            assert("Bool"@ != "S16"@) by { assert("Bool"@.len() != "S16"@.len()); }
            assert("Bool"@ != "S32"@) by { assert("Bool"@.len() != "S32"@.len()); }
            assert("Bool"@ != "S64"@) by { assert("Bool"@.len() != "S64"@.len()); }
            assert("Bool"@ != "F32"@) by { assert("Bool"@.len() != "F32"@.len()); }
            assert("Bool"@ != "F64"@) by { assert("Bool"@.len() != "F64"@.len()); }
            assert("true"@ != "false"@) by { assert("true"@.len() != "false"@.len()); }
            assert("true"@ != "U8"@) by { assert("true"@.len() != "U8"@.len()); }
            assert("true"@ != "U16"@) by { assert("true"@.len() != "U16"@.len()); }
            assert("true"@ != "U32"@) by { assert("true"@.len() != "U32"@.len()); }
            assert("true"@ != "U64"@) by { assert("true"@.len() != "U64"@.len()); }
            assert("true"@ != "S8"@) by { assert("true"@.len() != "S8"@.len()); }
            assert("true"@ != "S16"@) by { assert("true"@.len() != "S16"@.len()); }
            assert("true"@ != "S32"@) by { assert("true"@.len() != "S32"@.len()); }
            assert("true"@ != "S64"@) by { assert("true"@.len() != "S64"@.len()); }
            assert("true"@ != "F32"@) by { assert("true"@.len() != "F32"@.len()); }
            assert("true"@ != "F64"@) by { assert("true"@.len() != "F64"@.len()); }
            assert("false"@ != "U8"@) by { assert("false"@.len() != "U8"@.len()); }
            assert("false"@ != "U16"@) by { assert("false"@.len() != "U16"@.len()); }
            assert("false"@ != "U32"@) by { assert("false"@.len() != "U32"@.len()); }
            assert("false"@ != "U64"@) by { assert("false"@.len() != "U64"@.len()); }
            assert("false"@ != "S8"@) by { assert("false"@.len() != "S8"@.len()); }
            assert("false"@ != "S16"@) by { assert("false"@.len() != "S16"@.len()); }
            assert("false"@ != "S32"@) by { assert("false"@.len() != "S32"@.len()); }
            assert("false"@ != "S64"@) by { assert("false"@.len() != "S64"@.len()); }
            assert("false"@ != "F32"@) by { assert("false"@.len() != "F32"@.len()); }
            assert("false"@ != "F64"@) by { assert("false"@.len() != "F64"@.len()); }
            assert("U8"@ != "U16"@) by { assert("U8"@.len() != "U16"@.len()); }
            assert("U8"@ != "U32"@) by { assert("U8"@.len() != "U32"@.len()); }
            assert("U8"@ != "U64"@) by { assert("U8"@.len() != "U64"@.len()); }
            assert("U8"@ != "S8"@) by { assert("U8"@[0] != "S8"@[0]); }
            assert("U8"@ != "S16"@) by { assert("U8"@.len() != "S16"@.len()); }
            assert("U8"@ != "S32"@) by { assert("U8"@.len() != "S32"@.len()); }
            assert("U8"@ != "S64"@) by { assert("U8"@.len() != "S64"@.len()); }
            assert("U8"@ != "F32"@) by { assert("U8"@.len() != "F32"@.len()); }
            assert("U8"@ != "F64"@) by { assert("U8"@.len() != "F64"@.len()); }
            assert("U16"@ != "U32"@) by { assert("U16"@[1] != "U32"@[1]); }
            assert("U16"@ != "U64"@) by { assert("U16"@[1] != "U64"@[1]); }
            assert("U16"@ != "S8"@) by { assert("U16"@.len() != "S8"@.len()); }
            assert("U16"@ != "S16"@) by { assert("U16"@[0] != "S16"@[0]); }
            assert("U16"@ != "S32"@) by { assert("U16"@[0] != "S32"@[0]); }
            assert("U16"@ != "S64"@) by { assert("U16"@[0] != "S64"@[0]); }
            assert("U16"@ != "F32"@) by { assert("U16"@[0] != "F32"@[0]); }
            assert("U16"@ != "F64"@) by { assert("U16"@[0] != "F64"@[0]); }
            assert("U32"@ != "U64"@) by { assert("U32"@[1] != "U64"@[1]); }
            assert("U32"@ != "S8"@) by { assert("U32"@.len() != "S8"@.len()); }
            assert("U32"@ != "S16"@) by { assert("U32"@[0] != "S16"@[0]); }
            assert("U32"@ != "S32"@) by { assert("U32"@[0] != "S32"@[0]); }
            assert("U32"@ != "S64"@) by { assert("U32"@[0] != "S64"@[0]); }
            assert("U32"@ != "F32"@) by { assert("U32"@[0] != "F32"@[0]); }
            assert("U32"@ != "F64"@) by { assert("U32"@[0] != "F64"@[0]); }
            assert("U64"@ != "S8"@) by { assert("U64"@.len() != "S8"@.len()); }
            assert("U64"@ != "S16"@) by { assert("U64"@[0] != "S16"@[0]); }
            assert("U64"@ != "S32"@) by { assert("U64"@[0] != "S32"@[0]); }
            assert("U64"@ != "S64"@) by { assert("U64"@[0] != "S64"@[0]); }
            assert("U64"@ != "F32"@) by { assert("U64"@[0] != "F32"@[0]); }
            assert("U64"@ != "F64"@) by { assert("U64"@[0] != "F64"@[0]); }
            assert("S8"@ != "S16"@) by { assert("S8"@.len() != "S16"@.len()); }
            assert("S8"@ != "S32"@) by { assert("S8"@.len() != "S32"@.len()); }
            assert("S8"@ != "S64"@) by { assert("S8"@.len() != "S64"@.len()); }
            assert("S8"@ != "F32"@) by { assert("S8"@.len() != "F32"@.len()); }
            assert("S8"@ != "F64"@) by { assert("S8"@.len() != "F64"@.len()); }
            assert("S16"@ != "S32"@) by { assert("S16"@[1] != "S32"@[1]); }
            assert("S16"@ != "S64"@) by { assert("S16"@[1] != "S64"@[1]); }
            assert("S16"@ != "F32"@) by { assert("S16"@[0] != "F32"@[0]); }
            assert("S16"@ != "F64"@) by { assert("S16"@[0] != "F64"@[0]); }
            assert("S32"@ != "S64"@) by { assert("S32"@[1] != "S64"@[1]); }
            assert("S32"@ != "F32"@) by { assert("S32"@[0] != "F32"@[0]); }
            assert("S32"@ != "F64"@) by { assert("S32"@[0] != "F64"@[0]); }
            assert("S64"@ != "F32"@) by { assert("S64"@[0] != "F32"@[0]); }
            assert("S64"@ != "F64"@) by { assert("S64"@[0] != "F64"@[0]); }
            assert("F32"@ != "F64"@) by { assert("F32"@[1] != "F64"@[1]); }
        }
        let mut context = Context::empty();
        let u0 = Value::universe(0);
        let bool_ty = Value::literal_ty(LiteralType::Bool);

        context.add_defn("String".to_owned(), Value::literal_ty(LiteralType::String), rc_dup(&u0));
        context.add_defn("Char".to_owned(), Value::literal_ty(LiteralType::Char), rc_dup(&u0));
        context.add_defn("Bool".to_owned(), rc_dup(&bool_ty), rc_dup(&u0));
        context.add_defn(
            "true".to_owned(),
            Value::literal_intro(LiteralIntro::Bool(true)),
            rc_dup(&bool_ty),
        );
        context.add_defn(
            "false".to_owned(),
            Value::literal_intro(LiteralIntro::Bool(false)),
            rc_dup(&bool_ty),
        );
        context.add_defn("U8".to_owned(), Value::literal_ty(LiteralType::U8), rc_dup(&u0));
        context.add_defn("U16".to_owned(), Value::literal_ty(LiteralType::U16), rc_dup(&u0));
        context.add_defn("U32".to_owned(), Value::literal_ty(LiteralType::U32), rc_dup(&u0));
        context.add_defn("U64".to_owned(), Value::literal_ty(LiteralType::U64), rc_dup(&u0));
        context.add_defn("S8".to_owned(), Value::literal_ty(LiteralType::S8), rc_dup(&u0));
        context.add_defn("S16".to_owned(), Value::literal_ty(LiteralType::S16), rc_dup(&u0));
        context.add_defn("S32".to_owned(), Value::literal_ty(LiteralType::S32), rc_dup(&u0));
        context.add_defn("S64".to_owned(), Value::literal_ty(LiteralType::S64), rc_dup(&u0));
        context.add_defn("F32".to_owned(), Value::literal_ty(LiteralType::F32), rc_dup(&u0));
        context.add_defn("F64".to_owned(), Value::literal_ty(LiteralType::F64), rc_dup(&u0));

        let mut prims = PrimEnv::new();
        prims.add(
            PrimEntry {
                name: "String".to_owned(),
                arity: 0,
                ty: rc_dup(&u0),
                value: Value::literal_ty(LiteralType::String),
            },
        );
        prims.add(
            PrimEntry {
                name: "Char".to_owned(),
                arity: 0,
                ty: rc_dup(&u0),
                value: Value::literal_ty(LiteralType::Char),
            },
        );
        prims.add(
            PrimEntry {
                name: "Bool".to_owned(),
                arity: 0,
                ty: rc_dup(&u0),
                value: rc_dup(&bool_ty),
            },
        );
        prims.add(
            PrimEntry {
                name: "true".to_owned(),
                arity: 0,
                ty: rc_dup(&bool_ty),
                value: Value::literal_intro(LiteralIntro::Bool(true)),
            },
        );
        prims.add(
            PrimEntry {
                name: "false".to_owned(),
                arity: 0,
                ty: rc_dup(&bool_ty),
                value: Value::literal_intro(LiteralIntro::Bool(false)),
            },
        );
        prims.add(
            PrimEntry {
                name: "U8".to_owned(),
                arity: 0,
                ty: rc_dup(&u0),
                value: Value::literal_ty(LiteralType::U8),
            },
        );
        prims.add(
            PrimEntry {
                name: "U16".to_owned(),
                arity: 0,
                ty: rc_dup(&u0),
                value: Value::literal_ty(LiteralType::U16),
            },
        );
        prims.add(
            PrimEntry {
                name: "U32".to_owned(),
                arity: 0,
                ty: rc_dup(&u0),
                value: Value::literal_ty(LiteralType::U32),
            },
        );
        prims.add(
            PrimEntry {
                name: "U64".to_owned(),
                arity: 0,
                ty: rc_dup(&u0),
                value: Value::literal_ty(LiteralType::U64),
            },
        );
        prims.add(
            PrimEntry {
                name: "S8".to_owned(),
                arity: 0,
                ty: rc_dup(&u0),
                value: Value::literal_ty(LiteralType::S8),
            },
        );
        prims.add(
            PrimEntry {
                name: "S16".to_owned(),
                arity: 0,
                ty: rc_dup(&u0),
                value: Value::literal_ty(LiteralType::S16),
            },
        );
        prims.add(
            PrimEntry {
                name: "S32".to_owned(),
                arity: 0,
                ty: rc_dup(&u0),
                value: Value::literal_ty(LiteralType::S32),
            },
        );
        prims.add(
            PrimEntry {
                name: "S64".to_owned(),
                arity: 0,
                ty: rc_dup(&u0),
                value: Value::literal_ty(LiteralType::S64),
            },
        );
        prims.add(
            PrimEntry {
                name: "F32".to_owned(),
                arity: 0,
                ty: rc_dup(&u0),
                value: Value::literal_ty(LiteralType::F32),
            },
        );
        prims.add(
            PrimEntry {
                name: "F64".to_owned(),
                arity: 0,
                ty: rc_dup(&u0),
                value: Value::literal_ty(LiteralType::F64),
            },
        );
        context.prims = prims;

        context
    }
}

} // verus!
