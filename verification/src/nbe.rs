//! Normalization by evaluation.
//!
//! `eval` maps core terms into the semantic domain; `read_back` maps values
//! back into core terms, using fresh probe variables to descend under
//! binders; `normalize` is their composition.  `force` drives a value whose
//! head metavariable has been solved to its most evaluated form under the
//! current store.
//!
//! Evaluation of an untyped term need not terminate, so every function here
//! carries an explicit budget (`fuel`) and answers `OutOfFuel` when it runs
//! out.  The budget is a machine limit only: a larger budget can turn an
//! `OutOfFuel` answer into another one, never change a different answer.

use vstd::prelude::*;
use std::rc::Rc;
use crate::domain::{
    env_entries, is_forced_value, is_meta_value, rc_dup, AppClosure, Elim, Env, Head,
    LiteralClosure, Value,
};
use crate::errors::TypeError;
use crate::meta::{MetaEntry, MetaStore};
use crate::prim::{prim_lookup, PrimEnv};
use crate::syntax::{app_mode_agree, dup_app_mode, dup_lit_intro, AppMode, Span, Term};
use crate::var::index_of_level;

verus! {

/// Copy an optional binder name.
pub fn dup_opt_string(o: &Option<String>) -> (r: Option<String>)
    ensures
        r == *o,
{
    match o {
        Option::None => Option::None,
        Option::Some(s) => Option::Some(s.clone()),
    }
}

/// Copy a suspended clause set; the environment is shared, not copied.
pub fn dup_literal_closure(c: &LiteralClosure) -> (r: LiteralClosure)
    ensures
        r == *c,
{
    LiteralClosure { clauses: rc_dup(&c.clauses), default: rc_dup(&c.default), env: c.env.dup() }
}

/// Copy one pending elimination.
pub fn dup_elim(e: &Elim) -> (r: Elim)
    ensures
        r == *e,
{
    match e {
        Elim::Fun(mode, arg) => Elim::Fun(dup_app_mode(mode), rc_dup(arg)),
        Elim::Record(label) => Elim::Record(label.clone()),
        Elim::Literal(c) => Elim::Literal(dup_literal_closure(c)),
    }
}

/// Copy a spine, preserving the order of its eliminations.
#[verifier::loop_isolation(false)]
pub fn dup_spine(s: &Vec<Elim>) -> (r: Vec<Elim>)
    ensures
        r@ == s@,
{
    let mut out: Vec<Elim> = Vec::new();
    let n = s.len();
    let mut i: usize = 0;
    while i < n
        invariant
            i <= n,
            n == s@.len(),
            out@ =~= s@.subrange(0, i as int),
        decreases n - i,
    {
        out.push(dup_elim(&s[i]));
        i += 1;
    }
    proof {
        assert(out@ =~= s@);
    }
    out
}

/// A spine extended with one more elimination at its end.
pub fn spine_pushed(s: &Vec<Elim>, e: Elim) -> (r: Vec<Elim>)
    ensures
        r@ == s@.push(e),
{
    let mut out = dup_spine(s);
    out.push(e);
    out
}

/// Whether `v` is the neutral `Neutral(h, sp)` extended by one more function
/// application of `a` in mode `m`: the old spine is kept as a prefix, in
/// order, and the new elimination sits at the end.
pub open spec fn value_is_app_of(v: Value, h: Head, sp: Seq<Elim>, m: AppMode, a: Value) -> bool {
    match v {
        Value::Neutral(h2, sp2) => h2 == h && sp2@.len() == sp.len() + 1 && sp2@.subrange(
            0,
            sp.len() as int,
        ) == sp && match sp2@.last() {
            Elim::Fun(m3, a3) => m3 == m && *a3 == a,
            _ => false,
        },
        _ => false,
    }
}

/// Evaluate a core term in an environment.
///
/// Closed terms evaluate to ground values; open terms produce neutrals
/// headed by free variables or unsolved metavariables.  Annotations are
/// erased and `Let` definitions are inlined into the environment, so neither
/// survives into the value.
#[verifier::loop_isolation(false)]
pub fn eval(
    prims: &PrimEnv,
    metas: &MetaStore,
    env: &Env,
    span: Span,
    term: &Term,
    fuel: u64,
) -> (r: Result<Rc<Value>, TypeError>)
    ensures
        fuel > 0 ==> (*term matches Term::Universe(l) ==> (r matches Ok(v) && *v
            == Value::Universe(l))),
        fuel > 0 ==> (*term matches Term::LiteralType(lt) ==> (r matches Ok(v) && *v
            == Value::LiteralType(lt))),
        fuel > 0 ==> (*term matches Term::LiteralIntro(li) ==> (r matches Ok(v) && *v
            == Value::LiteralIntro(li))),
        fuel > 0 ==> (*term matches Term::FunIntro(mode, body) ==> (r matches Ok(v) && *v
            == Value::FunIntro(mode, (AppClosure { term: body, env: *env })))),
        fuel > 0 ==> (*term matches Term::Var(i) ==> (if (i as int) < env_entries(*env).len() {
            r matches Ok(v) && *v == env_entries(*env)[env_entries(*env).len() - 1 - (i as int)]
        } else {
            r is Err
        })),
        fuel > 0 ==> (*term matches Term::Meta(m) ==> (if (m as int) < metas.entries@.len() {
            match metas.entries@[m as int] {
                MetaEntry::Solved { value } => r matches Ok(v) && v == value,
                MetaEntry::Unsolved { .. } => r matches Ok(v) && is_meta_value(*v, m),
            }
        } else {
            r is Err
        })),
        fuel > 0 ==> (*term matches Term::Prim(name) ==> (match prim_lookup(
            prims.entries@,
            name@,
        ) {
            Some(e) => r matches Ok(v) && v == e.value,
            None => r is Err,
        })),
        fuel > 1 ==> (*term matches Term::Ann(inner, ty) ==> (*inner matches Term::LiteralIntro(li)
            ==> (r matches Ok(v) && *v == Value::LiteralIntro(li)))),
        fuel > 1 ==> (*term matches Term::Ann(inner, ty) ==> (*inner matches Term::Universe(l)
            ==> (r matches Ok(v) && *v == Value::Universe(l)))),
        fuel > 1 ==> (*term matches Term::Ann(inner, ty) ==> (*inner matches Term::FunIntro(
            mode,
            body,
        ) ==> (r matches Ok(v) && *v == Value::FunIntro(mode, (AppClosure {
            term: body,
            env: *env,
        }))))),
        fuel > 1 ==> (*term matches Term::Let(def, body) ==> (*def matches Term::LiteralIntro(li)
            ==> (*body matches Term::Var(i) ==> (i == 0 ==> (r matches Ok(v) && *v
            == Value::LiteralIntro(li)))))),
        fuel > 0 ==> (*term matches Term::FunType(mode, param_ty, body_ty) ==> (r matches Ok(v)
            ==> (*v matches Value::FunType(m2, pv, clo2) && m2 == mode && clo2 == (AppClosure {
            term: body_ty,
            env: *env,
        })))),
        fuel > 0 ==> (*term matches Term::RecordType(fields) ==> (if fields@.len() == 0 {
            r matches Ok(v) && *v is RecordTypeEmpty
        } else {
            r matches Ok(v) ==> (*v matches Value::RecordTypeExtend(h, l, tv, clo2) && h
                == fields@[0].1 && l == fields@[0].0 && ((*clo2.term) matches Term::RecordType(
                tail,
            ) && tail@ == fields@.skip(1) && clo2.env == *env))
        })),
        fuel > 0 ==> (*term matches Term::RecordIntro(fields) ==> (r matches Ok(v) ==> (*v
            matches Value::RecordIntro(vs) && vs@.len() == fields@.len() && (forall|j: int|
            0 <= j < fields@.len() ==> (#[trigger] vs@[j]).0 == fields@[j].0)))),
        fuel > 2 ==> (*term matches Term::FunElim(g, m, a) ==> (*g matches Term::Var(ig) ==> (*a
            matches Term::Var(ia) ==> (((ig as int) < env_entries(*env).len() && (ia as int)
            < env_entries(*env).len()) ==> (match env_entries(*env)[env_entries(*env).len() - 1 - (
            ig as int)] {
            Value::Neutral(h, sp) => r matches Ok(v) && value_is_app_of(
                *v,
                h,
                sp@,
                m,
                env_entries(*env)[env_entries(*env).len() - 1 - (ia as int)],
            ),
            _ => true,
        }))))),
        fuel > 3 ==> (*term matches Term::FunElim(g, m, a) ==> (*g matches Term::FunIntro(m2, body)
            ==> (app_mode_agree(m2, m) ==> (*a matches Term::LiteralIntro(li) ==> (*body
            matches Term::Var(i) ==> (i == 0 ==> (r matches Ok(v) && *v == Value::LiteralIntro(
            li,
        )))))))),
        fuel > 4 ==> (*term matches Term::FunElim(g, m, a) ==> (*g matches Term::Ann(gi, gt) ==> (
        *gi matches Term::FunIntro(m2, body) ==> (app_mode_agree(m2, m) ==> (*a
            matches Term::LiteralIntro(li) ==> (*body matches Term::Var(i) ==> (i == 0 ==> (
        r matches Ok(v) && *v == Value::LiteralIntro(li))))))))),
    decreases fuel,
{
    if fuel == 0 {
        return Err(TypeError::OutOfFuel);
    }
    let f = fuel - 1;
    match term {
        Term::Var(index) => {
            let size = env.size();
            if *index < size {
                let level = crate::var::level_of_index(size, *index);
                match env.get_level(level) {
                    Some(v) => Ok(v),
                    None => Err(TypeError::Bug { span }),
                }
            } else {
                Err(TypeError::Bug { span })
            }
        },
        Term::Meta(m) => match metas.lookup(*m) {
            Some(MetaEntry::Solved { value }) => Ok(rc_dup(value)),
            Some(MetaEntry::Unsolved { .. }) => Ok(
                Rc::new(Value::Neutral(Head::Meta(*m), Vec::new())),
            ),
            None => Err(TypeError::Bug { span }),
        },
        Term::Prim(name) => match prims.lookup_value(name) {
            Some(v) => Ok(v),
            None => Err(TypeError::Bug { span }),
        },
        Term::Ann(inner, _ty) => eval(prims, metas, env, span, inner, f),
        Term::Let(def, body) => {
            let dv = eval(prims, metas, env, span, def, f)?;
            let mut env2 = env.dup();
            env2.add_entry(dv);
            eval(prims, metas, &env2, span, body, f)
        },
        Term::LiteralType(lt) => Ok(Rc::new(Value::LiteralType(*lt))),
        Term::LiteralIntro(li) => Ok(Rc::new(Value::LiteralIntro(dup_lit_intro(li)))),
        Term::LiteralElim(scrut, clauses, default) => {
            let sv = eval(prims, metas, env, span, scrut, f)?;
            let clo = LiteralClosure {
                clauses: rc_dup(clauses),
                default: rc_dup(default),
                env: env.dup(),
            };
            eval_literal_elim(prims, metas, span, sv, clo, f)
        },
        Term::FunType(mode, param_ty, body_ty) => {
            let pv = eval(prims, metas, env, span, param_ty, f)?;
            Ok(
                Rc::new(
                    Value::FunType(
                        dup_app_mode(mode),
                        pv,
                        AppClosure { term: rc_dup(body_ty), env: env.dup() },
                    ),
                ),
            )
        },
        Term::FunIntro(mode, body) => Ok(
            Rc::new(
                Value::FunIntro(
                    dup_app_mode(mode),
                    AppClosure { term: rc_dup(body), env: env.dup() },
                ),
            ),
        ),
        Term::FunElim(fun, mode, arg) => {
            let fv = eval(prims, metas, env, span, fun, f)?;
            let av = eval(prims, metas, env, span, arg, f)?;
            eval_fun_elim(prims, metas, span, fv, mode, av, f)
        },
        Term::RecordType(fields) => {
            if fields.len() == 0 {
                Ok(Rc::new(Value::RecordTypeEmpty))
            } else {
                let (label, hint, ty) = &fields[0];
                let tv = eval(prims, metas, env, span, ty, f)?;
                let tail = dup_record_ty_tail(fields, 1);
                Ok(
                    Rc::new(
                        Value::RecordTypeExtend(
                            dup_opt_string(hint),
                            label.clone(),
                            tv,
                            AppClosure { term: Rc::new(Term::RecordType(tail)), env: env.dup() },
                        ),
                    ),
                )
            }
        },
        Term::RecordIntro(fields) => {
            let mut out: Vec<(String, Rc<Value>)> = Vec::new();
            let n = fields.len();
            let mut i: usize = 0;
            while i < n
                invariant
                    i <= n,
                    n == fields@.len(),
                    out@.len() == i,
                    forall|j: int| 0 <= j < i ==> (#[trigger] out@[j]).0 == fields@[j].0,
                decreases n - i,
            {
                let (label, t) = &fields[i];
                let v = eval(prims, metas, env, span, t, f)?;
                out.push((label.clone(), v));
                i += 1;
            }
            Ok(Rc::new(Value::RecordIntro(out)))
        },
        Term::RecordElim(record, label) => {
            let rv = eval(prims, metas, env, span, record, f)?;
            eval_record_elim(span, rv, label)
        },
        Term::Universe(level) => Ok(Rc::new(Value::Universe(*level))),
    }
}

/// The tail of a record type's field list, from `start` on.
#[verifier::loop_isolation(false)]
pub fn dup_record_ty_tail(
    fields: &Vec<(String, Option<String>, Rc<Term>)>,
    start: usize,
) -> (r: Vec<(String, Option<String>, Rc<Term>)>)
    requires
        start <= fields@.len(),
    ensures
        r@ == fields@.skip(start as int),
{
    let mut out: Vec<(String, Option<String>, Rc<Term>)> = Vec::new();
    let n = fields.len();
    let mut i: usize = start;
    while i < n
        invariant
            start <= i <= n,
            n == fields@.len(),
            out@ =~= fields@.subrange(start as int, i as int),
        decreases n - i,
    {
        let (label, hint, ty) = &fields[i];
        out.push((label.clone(), dup_opt_string(hint), rc_dup(ty)));
        i += 1;
    }
    proof {
        assert(out@ =~= fields@.skip(start as int));
    }
    out
}

/// Apply a closure to an argument: extend its captured environment with the
/// argument and evaluate its body there.
pub fn app_closure(
    prims: &PrimEnv,
    metas: &MetaStore,
    span: Span,
    closure: &AppClosure,
    arg: Rc<Value>,
    fuel: u64,
) -> (r: Result<Rc<Value>, TypeError>)
    ensures
        fuel > 1 ==> (*closure.term matches Term::Var(i) ==> (if i == 0 {
            r matches Ok(v) && v == arg
        } else if (i as int) <= env_entries(closure.env).len() {
            r matches Ok(v) && *v == env_entries(closure.env)[env_entries(closure.env).len() - (
            i as int)]
        } else {
            r is Err
        })),
        fuel > 1 ==> (*closure.term matches Term::LiteralIntro(li) ==> (r matches Ok(v) && *v
            == Value::LiteralIntro(li))),
        fuel > 1 ==> (*closure.term matches Term::Universe(l) ==> (r matches Ok(v) && *v
            == Value::Universe(l))),
        fuel > 1 ==> (*closure.term matches Term::Meta(m) ==> (if (m as int)
            < metas.entries@.len() {
            match metas.entries@[m as int] {
                MetaEntry::Solved { value } => r matches Ok(v) && v == value,
                MetaEntry::Unsolved { .. } => r matches Ok(v) && is_meta_value(*v, m),
            }
        } else {
            r is Err
        })),
        fuel > 3 ==> (*closure.term matches Term::FunElim(g, m, a) ==> (*g matches Term::Var(ig)
            ==> (*a matches Term::Var(ia) ==> ((ig == 1 && ia == 0 && env_entries(
            closure.env,
        ).len() >= 1) ==> (match env_entries(closure.env).last() {
            Value::Neutral(h, sp) => r matches Ok(v) && value_is_app_of(*v, h, sp@, m, *arg),
            _ => true,
        }))))),
    decreases fuel,
{
    if fuel == 0 {
        return Err(TypeError::OutOfFuel);
    }
    let mut env2 = closure.env.dup();
    env2.add_entry(arg);
    eval(prims, metas, &env2, span, &closure.term, fuel - 1)
}

/// Eliminate a function value.
///
/// A `FunIntro` with the matching mode is β-reduced through its closure; a
/// neutral grows its spine by this application, preserving spine order; any
/// other value is ill-formed here.
pub fn eval_fun_elim(
    prims: &PrimEnv,
    metas: &MetaStore,
    span: Span,
    fun: Rc<Value>,
    mode: &crate::syntax::AppMode,
    arg: Rc<Value>,
    fuel: u64,
) -> (r: Result<Rc<Value>, TypeError>)
    ensures
        fuel > 0 ==> (*fun matches Value::Neutral(h, sp) ==> (r matches Ok(v) && (*v
            matches Value::Neutral(h2, sp2) && h2 == h && sp2@ == sp@.push(
            Elim::Fun(*mode, arg),
        )))),
        fuel > 0 ==> (*fun matches Value::Neutral(h, sp) ==> (r matches Ok(v) && value_is_app_of(
            *v,
            h,
            sp@,
            *mode,
            *arg,
        ))),
        (fuel > 0 && !(*fun is Neutral) && !(*fun is FunIntro)) ==> r is Err,
        fuel > 2 ==> (*fun matches Value::FunIntro(m2, clo) ==> (app_mode_agree(m2, *mode) ==> ((
        *clo.term) matches Term::Var(i) ==> (i == 0 ==> (r matches Ok(v) && v == arg))))),
        fuel > 2 ==> (*fun matches Value::FunIntro(m2, clo) ==> (app_mode_agree(m2, *mode) ==> ((
        *clo.term) matches Term::LiteralIntro(li) ==> (r matches Ok(v) && *v
            == Value::LiteralIntro(li))))),
        fuel > 2 ==> (*fun matches Value::FunIntro(m2, clo) ==> (app_mode_agree(m2, *mode) ==> ((
        *clo.term) matches Term::Universe(l) ==> (r matches Ok(v) && *v == Value::Universe(l))))),
    decreases fuel,
{
    if fuel == 0 {
        return Err(TypeError::OutOfFuel);
    }
    let f = fuel - 1;
    match &*fun {
        Value::FunIntro(fun_mode, body) => {
            if crate::syntax::app_mode_eq(fun_mode, mode) {
                app_closure(prims, metas, span, body, arg, f)
            } else {
                Err(TypeError::Bug { span })
            }
        },
        Value::Neutral(head, spine) => {
            let new_spine = spine_pushed(spine, Elim::Fun(dup_app_mode(mode), arg));
            proof {
                assert(new_spine@.subrange(0, spine@.len() as int) =~= spine@);
            }
            Ok(Rc::new(Value::Neutral(*head, new_spine)))
        },
        _ => Err(TypeError::Bug { span }),
    }
}

/// The first record field with the given label, scanning in field order.
pub open spec fn spec_record_lookup(fields: Seq<(String, Rc<Value>)>, label: Seq<char>) -> Option<
    Rc<Value>,
>
    decreases fields.len(),
{
    if fields.len() == 0 {
        None
    } else if fields[0].0@ == label {
        Some(fields[0].1)
    } else {
        spec_record_lookup(fields.drop_first(), label)
    }
}

/// Eliminate a record value at a label: project the field out of a
/// `RecordIntro`, or grow a neutral's spine.
#[verifier::loop_isolation(false)]
pub fn eval_record_elim(span: Span, record: Rc<Value>, label: &String) -> (r: Result<
    Rc<Value>,
    TypeError,
>)
    ensures
        *record matches Value::Neutral(h, sp) ==> (r matches Ok(v) && (*v
            matches Value::Neutral(h2, sp2) && h2 == h && sp2@ == sp@.push(
            Elim::Record(*label),
        ))),
        *record matches Value::RecordIntro(fields) ==> (match spec_record_lookup(
            fields@,
            label@,
        ) {
            Some(v0) => r matches Ok(v) && v == v0,
            None => r is Err,
        }),
        (!(*record is Neutral) && !(*record is RecordIntro)) ==> r is Err,
{
    match &*record {
        Value::RecordIntro(fields) => {
            let n = fields.len();
            let mut i: usize = 0;
            proof {
                assert(fields@.skip(0) =~= fields@);
            }
            while i < n
                invariant
                    i <= n,
                    n == fields@.len(),
                    spec_record_lookup(fields@, label@) == spec_record_lookup(
                        fields@.skip(i as int),
                        label@,
                    ),
                decreases n - i,
            {
                let (l, v) = &fields[i];
                if *l == *label {
                    proof {
                        assert(fields@.skip(i as int)[0] == fields@[i as int]);
                    }
                    return Ok(rc_dup(v));
                }
                proof {
                    assert(fields@.skip(i as int).drop_first() =~= fields@.skip(i as int + 1));
                }
                i += 1;
            }
            proof {
                assert(fields@.skip(n as int).len() == 0);
            }
            Err(TypeError::Bug { span })
        },
        Value::Neutral(head, spine) => {
            let new_spine = spine_pushed(spine, Elim::Record(label.clone()));
            Ok(Rc::new(Value::Neutral(*head, new_spine)))
        },
        _ => Err(TypeError::Bug { span }),
    }
}

/// The body of the first clause whose pattern is alpha-equal to `li`,
/// scanning in clause order.
pub open spec fn spec_clause_lookup(
    clauses: Seq<(crate::syntax::LiteralIntro, Rc<Term>)>,
    li: crate::syntax::LiteralIntro,
) -> Option<Rc<Term>>
    decreases clauses.len(),
{
    if clauses.len() == 0 {
        None
    } else if crate::syntax::lit_intro_alpha_eq(clauses[0].0, li) {
        Some(clauses[0].1)
    } else {
        spec_clause_lookup(clauses.drop_first(), li)
    }
}

/// Eliminate a literal value: take the first clause whose pattern matches,
/// fall back to the default clause (which binds the scrutinee), or grow a
/// neutral's spine with the suspended clauses.
#[verifier::loop_isolation(false)]
pub fn eval_literal_elim(
    prims: &PrimEnv,
    metas: &MetaStore,
    span: Span,
    scrutinee: Rc<Value>,
    closure: LiteralClosure,
    fuel: u64,
) -> (r: Result<Rc<Value>, TypeError>)
    ensures
        fuel > 0 ==> (*scrutinee matches Value::Neutral(h, sp) ==> (r matches Ok(v) && (*v
            matches Value::Neutral(h2, sp2) && h2 == h && sp2@ == sp@.push(
            Elim::Literal(closure),
        )))),
        (fuel > 0 && !(*scrutinee is Neutral) && !(*scrutinee is LiteralIntro)) ==> r is Err,
        fuel > 1 ==> (*scrutinee matches Value::LiteralIntro(li) ==> (match spec_clause_lookup(
            closure.clauses@,
            li,
        ) {
            Some(body) => ((*body) matches Term::LiteralIntro(li2) ==> (r matches Ok(v) && *v
                == Value::LiteralIntro(li2))),
            None => ((*closure.default) matches Term::Var(i) ==> (i == 0 ==> (r matches Ok(v)
                && *v == *scrutinee))),
        })),
    decreases fuel,
{
    if fuel == 0 {
        return Err(TypeError::OutOfFuel);
    }
    let f = fuel - 1;
    match &*scrutinee {
        Value::LiteralIntro(li) => {
            let clauses = &*closure.clauses;
            let n = clauses.len();
            let mut i: usize = 0;
            proof {
                assert(clauses@.skip(0) =~= clauses@);
            }
            while i < n
                invariant
                    i <= n,
                    n == clauses@.len(),
                    spec_clause_lookup(clauses@, *li) == spec_clause_lookup(
                        clauses@.skip(i as int),
                        *li,
                    ),
                decreases n - i,
            {
                let (pat, body) = &clauses[i];
                if crate::syntax::lit_intro_eq(pat, li) {
                    proof {
                        assert(clauses@.skip(i as int)[0] == clauses@[i as int]);
                    }
                    return eval(prims, metas, &closure.env, span, body, f);
                }
                proof {
                    assert(clauses@.skip(i as int).drop_first() =~= clauses@.skip(i as int + 1));
                }
                i += 1;
            }
            proof {
                assert(clauses@.skip(n as int).len() == 0);
            }
            let mut env2 = closure.env.dup();
            env2.add_entry(rc_dup(&scrutinee));
            eval(prims, metas, &env2, span, &closure.default, f)
        },
        Value::Neutral(head, spine) => {
            let new_spine = spine_pushed(spine, Elim::Literal(closure));
            Ok(Rc::new(Value::Neutral(*head, new_spine)))
        },
        _ => Err(TypeError::Bug { span }),
    }
}

/// Replay a spine of eliminations, in order, on a value.
#[verifier::loop_isolation(false)]
fn apply_spine(
    prims: &PrimEnv,
    metas: &MetaStore,
    span: Span,
    head_value: Rc<Value>,
    spine: &Vec<Elim>,
    fuel: u64,
) -> (r: Result<Rc<Value>, TypeError>)
    ensures
        fuel > 0 ==> (spine@.len() == 0 ==> (r matches Ok(v) && v == head_value)),
    decreases fuel,
{
    if fuel == 0 {
        return Err(TypeError::OutOfFuel);
    }
    let f = fuel - 1;
    let ghost acc0 = head_value;
    let mut acc = head_value;
    let n = spine.len();
    let mut i: usize = 0;
    while i < n
        invariant
            i <= n,
            n == spine@.len(),
            n == 0 ==> acc == acc0,
        decreases n - i,
    {
        acc = match &spine[i] {
            Elim::Fun(mode, arg) => eval_fun_elim(prims, metas, span, acc, mode, rc_dup(arg), f)?,
            Elim::Record(label) => eval_record_elim(span, acc, label)?,
            Elim::Literal(c) => eval_literal_elim(
                prims,
                metas,
                span,
                acc,
                dup_literal_closure(c),
                f,
            )?,
        };
        i += 1;
    }
    Ok(acc)
}

/// Force a value: if it is a neutral whose head metavariable has been
/// solved, replay its spine on the solution (one elimination at a time, each
/// possibly triggering further forcing) and return the result; otherwise
/// return the value unchanged.
///
/// The two postconditions together make forcing a fixed point under an
/// unchanged store: every `Ok` answer is forced, and forcing a forced value
/// hands it back unchanged, so a second force returns the first answer.
pub fn force(
    prims: &PrimEnv,
    metas: &MetaStore,
    span: Span,
    value: &Rc<Value>,
    fuel: u64,
) -> (r: Result<Rc<Value>, TypeError>)
    ensures
        r matches Ok(w) ==> is_forced_value(metas.entries@, *w),
        is_forced_value(metas.entries@, **value) ==> (r matches Ok(w) && w == *value),
        fuel > 1 ==> (**value matches Value::Neutral(Head::Meta(m), sp) ==> ((sp@.len() == 0 && (
        m as int) < metas.entries@.len()) ==> (metas.entries@[m as int] matches MetaEntry::Solved {
            value: w,
        } ==> (is_forced_value(metas.entries@, *w) ==> (r matches Ok(u) && u == w))))),
    decreases fuel,
{
    match &**value {
        Value::Neutral(head, spine) => match head {
            Head::Meta(m) => match metas.lookup_solved(*m) {
                Some(solution) => {
                    if fuel == 0 {
                        return Err(TypeError::OutOfFuel);
                    }
                    let f = fuel - 1;
                    let replayed = apply_spine(prims, metas, span, solution, spine, f)?;
                    force(prims, metas, span, &replayed, f)
                },
                None => Ok(rc_dup(value)),
            },
            Head::Var(_) => Ok(rc_dup(value)),
        },
        _ => Ok(rc_dup(value)),
    }
}

/// Read a value back into core syntax, the inverse of `eval` up to β: fresh
/// probe variables at the current size are fed to closures to descend under
/// binders, and the size grows by one for each binder crossed.
#[verifier::loop_isolation(false)]
pub fn read_back(
    prims: &PrimEnv,
    metas: &MetaStore,
    size: usize,
    span: Span,
    value: &Rc<Value>,
    fuel: u64,
) -> (r: Result<Rc<Term>, TypeError>)
    ensures
        fuel > 0 ==> (**value matches Value::Universe(l) ==> (r matches Ok(t) && *t
            == Term::Universe(l))),
        fuel > 0 ==> (**value matches Value::LiteralType(lt) ==> (r matches Ok(t) && *t
            == Term::LiteralType(lt))),
        fuel > 0 ==> (**value matches Value::LiteralIntro(li) ==> (r matches Ok(t) && *t
            == Term::LiteralIntro(li))),
        fuel > 0 ==> (**value matches Value::Neutral(Head::Var(l), sp) ==> (sp@.len() == 0 ==> (
        if l < size {
            r matches Ok(t) && (*t matches Term::Var(i) && i == size - l - 1)
        } else {
            r is Err
        }))),
        fuel > 0 ==> (**value matches Value::Neutral(Head::Meta(m), sp) ==> ((sp@.len() == 0 && !(
        m < metas.entries@.len() && metas.entries@[m as int] is Solved)) ==> (r matches Ok(t) && *t
            == Term::Meta(m)))),
        fuel > 0 ==> (**value is RecordTypeEmpty ==> (r matches Ok(t) && (*t
            matches Term::RecordType(fields) && fields@.len() == 0))),
        fuel > 2 ==> (**value matches Value::FunIntro(mode, clo) ==> ((*clo.term)
            matches Term::Var(i) ==> ((i == 0 && size < usize::MAX) ==> (r matches Ok(t) && (*t
            matches Term::FunIntro(m2, b2) && m2 == mode && *b2 == Term::Var(0)))))),
        fuel > 2 ==> (**value matches Value::FunType(mode, p, clo) ==> ((*p)
            matches Value::Neutral(Head::Meta(m1), psp) ==> ((*clo.term) matches Term::Meta(m2)
            ==> ((psp@.len() == 0 && !(m1 < metas.entries@.len() && metas.entries@[m1 as int]
            is Solved) && (m2 as int) < metas.entries@.len() && metas.entries@[m2 as int]
            is Unsolved && size < usize::MAX) ==> (r matches Ok(t) && (*t matches Term::FunType(
            m3,
            t1,
            t2,
        ) && m3 == mode && *t1 == Term::Meta(m1) && *t2 == Term::Meta(m2))))))),
    decreases fuel,
{
    if fuel == 0 {
        return Err(TypeError::OutOfFuel);
    }
    let f = fuel - 1;
    let forced = force(prims, metas, span, value, f)?;
    match &*forced {
        Value::Neutral(head, spine) => {
            let mut acc: Rc<Term> = match head {
                Head::Var(level) => {
                    if *level < size {
                        Term::var(index_of_level(size, *level))
                    } else {
                        return Err(TypeError::Bug { span });
                    }
                },
                Head::Meta(m) => Rc::new(Term::Meta(*m)),
            };
            let ghost acc0 = acc;
            let n = spine.len();
            let mut i: usize = 0;
            while i < n
                invariant
                    i <= n,
                    n == spine@.len(),
                    n == 0 ==> acc == acc0,
                decreases n - i,
            {
                acc = match &spine[i] {
                    Elim::Fun(mode, arg) => {
                        let at = read_back(prims, metas, size, span, arg, f)?;
                        Rc::new(Term::FunElim(acc, dup_app_mode(mode), at))
                    },
                    Elim::Record(label) => Rc::new(Term::RecordElim(acc, label.clone())),
                    Elim::Literal(c) => {
                        let clauses = &*c.clauses;
                        let cn = clauses.len();
                        let mut out: Vec<(crate::syntax::LiteralIntro, Rc<Term>)> = Vec::new();
                        let mut j: usize = 0;
                        while j < cn
                            invariant
                                j <= cn,
                                cn == clauses@.len(),
                            decreases cn - j,
                        {
                            let (pat, body) = &clauses[j];
                            let bv = eval(prims, metas, &c.env, span, body, f)?;
                            let bt = read_back(prims, metas, size, span, &bv, f)?;
                            out.push((dup_lit_intro(pat), bt));
                            j += 1;
                        }
                        if size == usize::MAX {
                            return Err(TypeError::Bug { span });
                        }
                        let probe = Value::var(size);
                        let mut env2 = c.env.dup();
                        env2.add_entry(probe);
                        let dv = eval(prims, metas, &env2, span, &c.default, f)?;
                        let dt = read_back(prims, metas, size + 1, span, &dv, f)?;
                        Rc::new(Term::LiteralElim(acc, Rc::new(out), dt))
                    },
                };
                i += 1;
            }
            Ok(acc)
        },
        Value::LiteralType(lt) => Ok(Rc::new(Term::LiteralType(*lt))),
        Value::LiteralIntro(li) => Ok(Rc::new(Term::LiteralIntro(dup_lit_intro(li)))),
        Value::FunType(mode, param_ty, body_closure) => {
            let pt = read_back(prims, metas, size, span, param_ty, f)?;
            if size == usize::MAX {
                return Err(TypeError::Bug { span });
            }
            let probe = Value::var(size);
            let bv = app_closure(prims, metas, span, body_closure, probe, f)?;
            let bt = read_back(prims, metas, size + 1, span, &bv, f)?;
            Ok(Rc::new(Term::FunType(dup_app_mode(mode), pt, bt)))
        },
        Value::FunIntro(mode, body_closure) => {
            if size == usize::MAX {
                return Err(TypeError::Bug { span });
            }
            let probe = Value::var(size);
            let bv = app_closure(prims, metas, span, body_closure, probe, f)?;
            let bt = read_back(prims, metas, size + 1, span, &bv, f)?;
            Ok(Rc::new(Term::FunIntro(dup_app_mode(mode), bt)))
        },
        Value::RecordTypeEmpty => Ok(Rc::new(Term::RecordType(Vec::new()))),
        Value::RecordTypeExtend(_, _, _, _) => {
            let fields = read_back_record_ty(prims, metas, size, span, &forced, f)?;
            Ok(Rc::new(Term::RecordType(fields)))
        },
        Value::RecordIntro(fields) => {
            let n = fields.len();
            let mut out: Vec<(String, Rc<Term>)> = Vec::new();
            let mut i: usize = 0;
            while i < n
                invariant
                    i <= n,
                    n == fields@.len(),
                decreases n - i,
            {
                let (label, v) = &fields[i];
                let t = read_back(prims, metas, size, span, v, f)?;
                out.push((label.clone(), t));
                i += 1;
            }
            Ok(Rc::new(Term::RecordIntro(out)))
        },
        Value::Universe(level) => Ok(Rc::new(Term::Universe(*level))),
    }
}

/// Read the fields of a record type value back, crossing one binder per
/// field.
#[verifier::loop_isolation(false)]
fn read_back_record_ty(
    prims: &PrimEnv,
    metas: &MetaStore,
    size: usize,
    span: Span,
    value: &Rc<Value>,
    fuel: u64,
) -> (r: Result<Vec<(String, Option<String>, Rc<Term>)>, TypeError>)
    decreases fuel,
{
    if fuel == 0 {
        return Err(TypeError::OutOfFuel);
    }
    let f = fuel - 1;
    let forced = force(prims, metas, span, value, f)?;
    match &*forced {
        Value::RecordTypeEmpty => Ok(Vec::new()),
        Value::RecordTypeExtend(hint, label, field_ty, rest_closure) => {
            let tt = read_back(prims, metas, size, span, field_ty, f)?;
            if size == usize::MAX {
                return Err(TypeError::Bug { span });
            }
            let probe = Value::var(size);
            let rest = app_closure(prims, metas, span, rest_closure, probe, f)?;
            let rest_fields = read_back_record_ty(prims, metas, size + 1, span, &rest, f)?;
            let mut out: Vec<(String, Option<String>, Rc<Term>)> = Vec::new();
            out.push((label.clone(), dup_opt_string(hint), tt));
            let n = rest_fields.len();
            let mut i: usize = 0;
            while i < n
                invariant
                    i <= n,
                    n == rest_fields@.len(),
                decreases n - i,
            {
                let (l, h, t) = &rest_fields[i];
                out.push((l.clone(), dup_opt_string(h), rc_dup(t)));
                i += 1;
            }
            Ok(out)
        },
        _ => Err(TypeError::Bug { span }),
    }
}

/// Normalize a term: evaluate it, then read the value back at the size of
/// the environment it was evaluated in.
pub fn normalize(
    prims: &PrimEnv,
    metas: &MetaStore,
    env: &Env,
    span: Span,
    term: &Term,
    fuel: u64,
) -> (r: Result<Rc<Term>, TypeError>)
    ensures
        fuel > 1 ==> (*term matches Term::Universe(l) ==> (r matches Ok(t) && *t
            == Term::Universe(l))),
        fuel > 1 ==> (*term matches Term::LiteralIntro(li) ==> (r matches Ok(t) && *t
            == Term::LiteralIntro(li))),
        fuel > 4 ==> (*term matches Term::FunElim(g, m, a) ==> (*g matches Term::FunIntro(m2, body)
            ==> (app_mode_agree(m2, m) ==> (*a matches Term::LiteralIntro(li) ==> (*body
            matches Term::Var(i) ==> (i == 0 ==> (r matches Ok(t) && *t == Term::LiteralIntro(
            li,
        )))))))),
        fuel > 5 ==> (*term matches Term::FunElim(g, m, a) ==> (*g matches Term::Ann(gi, gt) ==> (
        *gi matches Term::FunIntro(m2, body) ==> (app_mode_agree(m2, m) ==> (*a
            matches Term::LiteralIntro(li) ==> (*body matches Term::Var(i) ==> (i == 0 ==> (
        r matches Ok(t) && *t == Term::LiteralIntro(li))))))))),
    decreases fuel,
{
    if fuel == 0 {
        return Err(TypeError::OutOfFuel);
    }
    let f = fuel - 1;
    let v = eval(prims, metas, env, span, term, f)?;
    read_back(prims, metas, env.size(), span, &v, f)
}

} // verus!
