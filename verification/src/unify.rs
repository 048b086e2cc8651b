//! Unification of values, with metavariable solving.
//!
//! `unify_values` makes its first argument definitionally equal to — or, for
//! universes, a subtype of — its second, either by confirming equality or by
//! solving a metavariable whose spine is a pattern.  Only the metavariable
//! store is mutated, and only from unsolved to solved.

use vstd::prelude::*;
use std::rc::Rc;
use crate::domain::{env_entries, is_forced_value, rc_dup, Elim, Env, Head, Value};
use crate::errors::TypeError;
use crate::meta::{store_extends, MetaEntry, MetaStore};
use crate::nbe::{
    app_closure, dup_literal_closure, eval, eval_fun_elim, eval_literal_elim, force,
    value_is_app_of,
};
use crate::prim::PrimEnv;
use crate::syntax::{app_mode_agree, app_mode_eq, AppMode, Span, Term};

verus! {

/// Whether `x` occurs in `levels`.
pub open spec fn spec_contains_level(levels: Seq<usize>, x: int) -> bool {
    exists|j: int| 0 <= j < levels.len() && levels[j] == x
}

#[verifier::loop_isolation(false)]
fn contains_level(levels: &Vec<usize>, x: usize) -> (r: bool)
    ensures
        r == spec_contains_level(levels@, x as int),
{
    let n = levels.len();
    let mut i: usize = 0;
    while i < n
        invariant
            i <= n,
            forall|j: int| 0 <= j < i ==> levels@[j] != x,
        decreases n - i,
    {
        if levels[i] == x {
            return true;
        }
        i += 1;
    }
    false
}

/// Whether a value, if it is a neutral at all, is stuck on a variable
/// rather than on a metavariable.
pub open spec fn neutral_head_rigid(v: Value) -> bool {
    match v {
        Value::Neutral(h, _) => h is Var,
        _ => true,
    }
}

/// Whether a value is a bare bound variable: a neutral with a variable head
/// and an empty spine.
pub open spec fn is_bare_var(v: Value) -> bool {
    match v {
        Value::Neutral(h, sp) => h is Var && sp@.len() == 0,
        _ => false,
    }
}

/// Whether an elimination is a function application of a bare bound
/// variable — the shape the pattern fragment admits.
pub open spec fn elim_is_bare_var_app(e: Elim) -> bool {
    match e {
        Elim::Fun(_, a) => is_bare_var(*a),
        _ => false,
    }
}

/// The level of the bare variable that an admissible elimination applies.
pub open spec fn elim_var_level(e: Elim) -> usize {
    match e {
        Elim::Fun(_, a) => match *a {
            Value::Neutral(h, _) => match h {
                Head::Var(l) => l,
                _ => 0,
            },
            _ => 0,
        },
        _ => 0,
    }
}

/// Whether every function argument in the spine is already as evaluated as
/// the store allows.
pub open spec fn spine_args_forced(store: Seq<crate::meta::MetaEntry>, spine: Seq<Elim>) -> bool {
    forall|j: int|
        0 <= j < spine.len() ==> (match #[trigger] spine[j] {
            Elim::Fun(_, a) => is_forced_value(store, *a),
            _ => true,
        })
}

/// Check that a metavariable's spine is a pattern: every elimination is a
/// function application whose forced argument is a bare bound variable.
/// Returns the levels of those variables, in spine order.
#[verifier::loop_isolation(false)]
fn check_spine(
    prims: &PrimEnv,
    metas: &MetaStore,
    span: Span,
    spine: &Vec<Elim>,
    fuel: u64,
) -> (r: Result<Vec<usize>, TypeError>)
    ensures
        r matches Ok(levels) ==> (levels@.len() == spine@.len() && forall|j: int|
            0 <= j < spine@.len() ==> #[trigger] spine@[j] is Fun),
        fuel > 0 ==> ((forall|j: int|
            0 <= j < spine@.len() ==> elim_is_bare_var_app(#[trigger] spine@[j])) ==> (
        r matches Ok(levels) && levels@.len() == spine@.len() && forall|j: int|
            0 <= j < spine@.len() ==> levels@[j] == elim_var_level(#[trigger] spine@[j]))),
        fuel > 0 ==> ((spine_args_forced(metas.entries@, spine@) && (exists|j: int|
            0 <= j < spine@.len() && !elim_is_bare_var_app(#[trigger] spine@[j]))) ==> (
        r matches Err(e) && e == (TypeError::SpineNotPattern { span }))),
    decreases fuel,
{
    if fuel == 0 {
        return Err(TypeError::OutOfFuel);
    }
    let f = fuel - 1;
    let mut levels: Vec<usize> = Vec::new();
    let n = spine.len();
    let mut i: usize = 0;
    while i < n
        invariant
            i <= n,
            levels@.len() == i,
            forall|j: int| 0 <= j < i ==> #[trigger] spine@[j] is Fun,
            (forall|j: int| 0 <= j < spine@.len() ==> elim_is_bare_var_app(#[trigger] spine@[j]))
                ==> (forall|j: int|
                0 <= j < i ==> levels@[j] == elim_var_level(#[trigger] spine@[j])),
            spine_args_forced(metas.entries@, spine@) ==> (forall|j: int|
                0 <= j < i ==> elim_is_bare_var_app(#[trigger] spine@[j])),
        decreases n - i,
    {
        match &spine[i] {
            Elim::Fun(_, arg) => {
                let forced = force(prims, metas, span, arg, f)?;
                match &*forced {
                    Value::Neutral(Head::Var(level), arg_spine) => {
                        if arg_spine.len() == 0 {
                            levels.push(*level);
                        } else {
                            return Err(TypeError::SpineNotPattern { span });
                        }
                    },
                    _ => {
                        return Err(TypeError::SpineNotPattern { span });
                    },
                }
            },
            _ => {
                return Err(TypeError::SpineNotPattern { span });
            },
        }
        i += 1;
    }
    Ok(levels)
}

/// Whether a solution candidate passes every scope and occurs check, with
/// the traversal budget `fuel`: under `size` binders (growing by one per
/// binder crossed, and by one per record type field), every variable's level
/// must be among the captured `levels`, the metavariable `head` must not
/// occur, `Let` must not appear, and no binder may push `size` past the
/// machine limit.
pub open spec fn solution_admissible(
    size: nat,
    head: usize,
    levels: Seq<usize>,
    t: Term,
    fuel: nat,
) -> bool
    decreases fuel, 0nat,
{
    fuel > 0 && match t {
        Term::Var(i) => i < size && spec_contains_level(levels, size - i - 1),
        Term::Meta(m) => m != head,
        Term::Prim(_) => true,
        Term::Ann(a, b) => solution_admissible(size, head, levels, *a, (fuel - 1) as nat)
            && solution_admissible(size, head, levels, *b, (fuel - 1) as nat),
        Term::Let(_, _) => false,
        Term::LiteralType(_) => true,
        Term::LiteralIntro(_) => true,
        Term::LiteralElim(s, cs, d) => solution_admissible(
            size,
            head,
            levels,
            *s,
            (fuel - 1) as nat,
        ) && clause_bodies_admissible(size, head, levels, cs@, (fuel - 1) as nat) && size
            < usize::MAX && solution_admissible(size + 1, head, levels, *d, (fuel - 1) as nat),
        Term::FunType(_, p, b) => solution_admissible(size, head, levels, *p, (fuel - 1) as nat)
            && size < usize::MAX && solution_admissible(
            size + 1,
            head,
            levels,
            *b,
            (fuel - 1) as nat,
        ),
        Term::FunIntro(_, b) => size < usize::MAX && solution_admissible(
            size + 1,
            head,
            levels,
            *b,
            (fuel - 1) as nat,
        ),
        Term::FunElim(g, _, a) => solution_admissible(size, head, levels, *g, (fuel - 1) as nat)
            && solution_admissible(size, head, levels, *a, (fuel - 1) as nat),
        Term::RecordType(fields) => record_ty_fields_admissible(
            size as int,
            head,
            levels,
            fields@,
            (fuel - 1) as nat,
        ),
        Term::RecordIntro(fields) => record_intro_fields_admissible(
            size,
            head,
            levels,
            fields@,
            (fuel - 1) as nat,
        ),
        Term::RecordElim(rec, _) => solution_admissible(size, head, levels, *rec, (fuel - 1) as nat),
        Term::Universe(_) => true,
    }
}

/// Each clause body of a literal elimination passes the checks, under the
/// same size.
pub open spec fn clause_bodies_admissible(
    size: nat,
    head: usize,
    levels: Seq<usize>,
    clauses: Seq<(crate::syntax::LiteralIntro, Rc<Term>)>,
    fuel: nat,
) -> bool
    decreases fuel, clauses.len(),
{
    clauses.len() == 0 || (solution_admissible(size, head, levels, *clauses[0].1, fuel)
        && clause_bodies_admissible(size, head, levels, clauses.drop_first(), fuel))
}

/// Each field type of a record type passes the checks, the size growing by
/// one binder per field and staying within the machine limit.
pub open spec fn record_ty_fields_admissible(
    size: int,
    head: usize,
    levels: Seq<usize>,
    fields: Seq<(String, Option<String>, Rc<Term>)>,
    fuel: nat,
) -> bool
    decreases fuel, fields.len(),
{
    fields.len() == 0 || (0 <= size <= usize::MAX && solution_admissible(
        size as nat,
        head,
        levels,
        *fields[0].2,
        fuel,
    ) && record_ty_fields_admissible(size + 1, head, levels, fields.drop_first(), fuel))
}

/// Each field term of a record value passes the checks, under the same
/// size.
pub open spec fn record_intro_fields_admissible(
    size: nat,
    head: usize,
    levels: Seq<usize>,
    fields: Seq<(String, Rc<Term>)>,
    fuel: nat,
) -> bool
    decreases fuel, fields.len(),
{
    fields.len() == 0 || (solution_admissible(size, head, levels, *fields[0].1, fuel)
        && record_intro_fields_admissible(size, head, levels, fields.drop_first(), fuel))
}

/// Scope check and occurs check a solution candidate, a term read back at
/// `size`.  Every variable must be one that the spine captured: its level,
/// computed from the size at its depth, must be among `bound_levels`.  The
/// metavariable being solved must not occur at all, and `Let` must not
/// appear: the checker eliminates it before unification.
#[verifier::loop_isolation(false)]
pub fn check_solution(
    size: usize,
    span: Span,
    head: usize,
    bound_levels: &Vec<usize>,
    rhs: &Term,
    fuel: u64,
) -> (r: Result<(), TypeError>)
    ensures
        fuel > 0 ==> (*rhs matches Term::Meta(m) ==> (if m == head {
            r matches Err(e) && e == (TypeError::OccursCheck { span, meta: head })
        } else {
            r is Ok
        })),
        fuel > 0 ==> (*rhs matches Term::Var(i) ==> (if i < size && spec_contains_level(
            bound_levels@,
            size - i - 1,
        ) {
            r is Ok
        } else {
            r matches Err(e) && e == (TypeError::ScopeError { span, meta: head })
        })),
        fuel > 0 ==> (*rhs is Let ==> (r matches Err(e) && e == (TypeError::Bug { span }))),
        fuel > 1 ==> (*rhs matches Term::FunType(x, p, b) ==> ((*p) matches Term::Meta(m) ==> (m
            == head ==> (r matches Err(e) && e == (TypeError::OccursCheck { span, meta: head }))))),
        r is Ok <==> solution_admissible(size as nat, head, bound_levels@, *rhs, fuel as nat),
    decreases fuel,
{
    if fuel == 0 {
        return Err(TypeError::OutOfFuel);
    }
    let f = fuel - 1;
    let ghost whole = solution_admissible(size as nat, head, bound_levels@, *rhs, fuel as nat);
    match rhs {
        Term::Var(index) => {
            if *index < size {
                let level = crate::var::level_of_index(size, *index);
                if contains_level(bound_levels, level) {
                    Ok(())
                } else {
                    Err(TypeError::ScopeError { span, meta: head })
                }
            } else {
                Err(TypeError::ScopeError { span, meta: head })
            }
        },
        Term::Meta(m) => {
            if *m == head {
                Err(TypeError::OccursCheck { span, meta: head })
            } else {
                Ok(())
            }
        },
        Term::Prim(_) => Ok(()),
        Term::Ann(inner, ty) => {
            let r1 = check_solution(size, span, head, bound_levels, inner, f);
            if r1.is_err() {
                proof {
                    assert(!whole);
                }
                return r1;
            }
            let r2 = check_solution(size, span, head, bound_levels, ty, f);
            proof {
                assert(r2 is Ok <==> whole);
            }
            r2
        },
        Term::Let(_, _) => Err(TypeError::Bug { span }),
        Term::LiteralType(_) => Ok(()),
        Term::LiteralIntro(_) => Ok(()),
        Term::LiteralElim(scrutinee, clauses, default) => {
            let r1 = check_solution(size, span, head, bound_levels, scrutinee, f);
            if r1.is_err() {
                proof {
                    assert(!whole);
                }
                return r1;
            }
            let cs = &**clauses;
            let n = cs.len();
            let mut i: usize = 0;
            proof {
                assert(cs@.skip(0) =~= cs@);
            }
            while i < n
                invariant
                    i <= n,
                    n == cs@.len(),
                    clause_bodies_admissible(size as nat, head, bound_levels@, cs@, f as nat)
                        == clause_bodies_admissible(
                        size as nat,
                        head,
                        bound_levels@,
                        cs@.skip(i as int),
                        f as nat,
                    ),
                decreases n - i,
            {
                let (_, body) = &cs[i];
                proof {
                    assert(cs@.skip(i as int)[0] == cs@[i as int]);
                }
                let rc = check_solution(size, span, head, bound_levels, body, f);
                if rc.is_err() {
                    proof {
                        assert(!clause_bodies_admissible(
                            size as nat,
                            head,
                            bound_levels@,
                            cs@,
                            f as nat,
                        ));
                        assert(!whole);
                    }
                    return rc;
                }
                proof {
                    assert(cs@.skip(i as int).drop_first() =~= cs@.skip(i as int + 1));
                }
                i += 1;
            }
            proof {
                assert(cs@.skip(n as int).len() == 0);
            }
            if size == usize::MAX {
                proof {
                    assert(!whole);
                }
                return Err(TypeError::Bug { span });
            }
            let r2 = check_solution(size + 1, span, head, bound_levels, default, f);
            proof {
                assert(r2 is Ok <==> whole);
            }
            r2
        },
        Term::FunType(_, param_ty, body_ty) => {
            let r1 = check_solution(size, span, head, bound_levels, param_ty, f);
            if r1.is_err() {
                proof {
                    assert(!whole);
                }
                return r1;
            }
            if size == usize::MAX {
                proof {
                    assert(!whole);
                }
                return Err(TypeError::Bug { span });
            }
            let r2 = check_solution(size + 1, span, head, bound_levels, body_ty, f);
            proof {
                assert(r2 is Ok <==> whole);
            }
            r2
        },
        Term::FunIntro(_, body) => {
            if size == usize::MAX {
                proof {
                    assert(!whole);
                }
                return Err(TypeError::Bug { span });
            }
            let r2 = check_solution(size + 1, span, head, bound_levels, body, f);
            proof {
                assert(r2 is Ok <==> whole);
            }
            r2
        },
        Term::FunElim(fun, _, arg) => {
            let r1 = check_solution(size, span, head, bound_levels, fun, f);
            if r1.is_err() {
                proof {
                    assert(!whole);
                }
                return r1;
            }
            let r2 = check_solution(size, span, head, bound_levels, arg, f);
            proof {
                assert(r2 is Ok <==> whole);
            }
            r2
        },
        Term::RecordType(fields) => {
            let n = fields.len();
            let mut i: usize = 0;
            proof {
                assert(fields@.skip(0) =~= fields@);
            }
            while i < n
                invariant
                    i <= n,
                    n == fields@.len(),
                    record_ty_fields_admissible(
                        size as int,
                        head,
                        bound_levels@,
                        fields@,
                        f as nat,
                    ) == record_ty_fields_admissible(
                        size + i,
                        head,
                        bound_levels@,
                        fields@.skip(i as int),
                        f as nat,
                    ),
                decreases n - i,
            {
                let (_, _, ty) = &fields[i];
                proof {
                    assert(fields@.skip(i as int)[0] == fields@[i as int]);
                }
                if size > usize::MAX - i {
                    proof {
                        assert(!record_ty_fields_admissible(
                            size as int,
                            head,
                            bound_levels@,
                            fields@,
                            f as nat,
                        ));
                        assert(!whole);
                    }
                    return Err(TypeError::Bug { span });
                }
                let rc = check_solution(size + i, span, head, bound_levels, ty, f);
                if rc.is_err() {
                    proof {
                        assert(!record_ty_fields_admissible(
                            size as int,
                            head,
                            bound_levels@,
                            fields@,
                            f as nat,
                        ));
                        assert(!whole);
                    }
                    return rc;
                }
                proof {
                    assert(fields@.skip(i as int).drop_first() =~= fields@.skip(i as int + 1));
                }
                i += 1;
            }
            proof {
                assert(fields@.skip(n as int).len() == 0);
                assert(whole);
            }
            Ok(())
        },
        Term::RecordIntro(fields) => {
            let n = fields.len();
            let mut i: usize = 0;
            proof {
                assert(fields@.skip(0) =~= fields@);
            }
            while i < n
                invariant
                    i <= n,
                    n == fields@.len(),
                    record_intro_fields_admissible(
                        size as nat,
                        head,
                        bound_levels@,
                        fields@,
                        f as nat,
                    ) == record_intro_fields_admissible(
                        size as nat,
                        head,
                        bound_levels@,
                        fields@.skip(i as int),
                        f as nat,
                    ),
                decreases n - i,
            {
                let (_, t) = &fields[i];
                proof {
                    assert(fields@.skip(i as int)[0] == fields@[i as int]);
                }
                let rc = check_solution(size, span, head, bound_levels, t, f);
                if rc.is_err() {
                    proof {
                        assert(!record_intro_fields_admissible(
                            size as nat,
                            head,
                            bound_levels@,
                            fields@,
                            f as nat,
                        ));
                        assert(!whole);
                    }
                    return rc;
                }
                proof {
                    assert(fields@.skip(i as int).drop_first() =~= fields@.skip(i as int + 1));
                }
                i += 1;
            }
            proof {
                assert(fields@.skip(n as int).len() == 0);
                assert(whole);
            }
            Ok(())
        },
        Term::RecordElim(record, _) => {
            let r2 = check_solution(size, span, head, bound_levels, record, f);
            proof {
                assert(r2 is Ok <==> whole);
            }
            r2
        },
        Term::Universe(_) => Ok(()),
    }
}

/// Solve a metavariable found in head position: check its spine is a
/// pattern, read the right-hand side back, scope and occurs check it, wrap
/// it in one explicit lambda per captured level (in reverse order) and store
/// the evaluation of that closed term as the solution.
#[verifier::loop_isolation(false)]
pub fn solve_neutral(
    prims: &PrimEnv,
    metas: &mut MetaStore,
    values: &Env,
    span: Span,
    head: usize,
    spine: &Vec<Elim>,
    rhs: &Rc<Value>,
    fuel: u64,
) -> (r: Result<(), TypeError>)
    ensures
        store_extends(final(metas).entries@, old(metas).entries@),
        final(metas).entries@.len() == old(metas).entries@.len(),
        r is Ok ==> (head < old(metas).entries@.len() && old(metas).entries@[head as int]
            is Unsolved && final(metas).entries@[head as int] is Solved),
        r is Ok ==> (forall|j: int| 0 <= j < spine@.len() ==> #[trigger] spine@[j] is Fun),
        r is Err ==> final(metas).entries@ == old(metas).entries@,
        fuel > 2 ==> ((head < old(metas).entries@.len() && old(metas).entries@[head as int]
            is Unsolved && spine@.len() == 0) ==> (**rhs matches Value::LiteralIntro(li) ==> (
        r is Ok && (final(metas).entries@[head as int] matches MetaEntry::Solved { value: w } && *w
            == Value::LiteralIntro(li))))),
        fuel > 2 ==> ((head < old(metas).entries@.len() && old(metas).entries@[head as int]
            is Unsolved && spine@.len() == 0) ==> (**rhs matches Value::Universe(l) ==> (r is Ok
            && (final(metas).entries@[head as int] matches MetaEntry::Solved { value: w } && *w
            == Value::Universe(l))))),
        fuel > 2 ==> ((head < old(metas).entries@.len() && old(metas).entries@[head as int]
            is Unsolved && spine@.len() == 0) ==> ((**rhs) matches Value::Neutral(
            Head::Var(l),
            rsp,
        ) ==> ((rsp@.len() == 0 && (l as int) < env_entries(*values).len()) ==> (r matches Err(e)
            && e == (TypeError::ScopeError { span, meta: head }))))),
        fuel > 3 ==> ((head < old(metas).entries@.len() && old(metas).entries@[head as int]
            is Unsolved && spine@.len() == 0 && env_entries(*values).len() < usize::MAX) ==> ((
        **rhs) matches Value::FunType(mode, p, clo) ==> ((*p) matches Value::Neutral(
            Head::Meta(m1),
            psp,
        ) ==> ((*clo.term) matches Term::Meta(m2) ==> ((psp@.len() == 0 && m1 == head && (
        m2 as int) < old(metas).entries@.len() && old(metas).entries@[m2 as int] is Unsolved) ==> (
        r matches Err(e) && e == (TypeError::OccursCheck { span, meta: head }))))))),
        fuel > 1 ==> ((head < old(metas).entries@.len() && old(metas).entries@[head as int]
            is Unsolved && spine_args_forced(old(metas).entries@, spine@) && (exists|j: int|
            0 <= j < spine@.len() && !elim_is_bare_var_app(#[trigger] spine@[j]))) ==> (
        r matches Err(e) && e == (TypeError::SpineNotPattern { span }))),
    decreases fuel,
{
    if fuel == 0 {
        return Err(TypeError::OutOfFuel);
    }
    let f = fuel - 1;
    let unsolved = match metas.lookup(head) {
        Some(MetaEntry::Unsolved { .. }) => true,
        _ => false,
    };
    if !unsolved {
        return Err(TypeError::Bug { span });
    }
    let bound_levels = check_spine(prims, metas, span, spine, f)?;
    let rhs_term = crate::nbe::read_back(prims, metas, values.size(), span, rhs, f)?;
    check_solution(values.size(), span, head, &bound_levels, &rhs_term, f)?;
    let ghost base_term = rhs_term;
    let mut solution: Rc<Term> = rhs_term;
    let k = bound_levels.len();
    let mut i: usize = 0;
    while i < k
        invariant
            i <= k,
            k == 0 ==> solution == base_term,
        decreases k - i,
    {
        solution = Rc::new(Term::FunIntro(AppMode::Explicit, solution));
        i += 1;
    }
    let empty_env = Env::new();
    let solution_value = eval(prims, metas, &empty_env, span, &solution, f)?;
    metas.add_solved(head, solution_value);
    Ok(())
}

/// Unify two values: confirm that the first is definitionally equal to the
/// second — a subtype, in the universe case, realizing cumulativity — or
/// solve a metavariable so that they become equal.  Both values are forced
/// first, so the comparison sees the current store.
///
/// The store only evolves: entries are never removed, and a solved entry is
/// never changed.  `Universe(a)` unifies with `Universe(b)` exactly when
/// `a <= b`, and that comparison never touches the store.
#[verifier::loop_isolation(false)]
pub fn unify_values(
    prims: &PrimEnv,
    metas: &mut MetaStore,
    values: &Env,
    span: Span,
    value1: &Rc<Value>,
    value2: &Rc<Value>,
    fuel: u64,
) -> (r: Result<(), TypeError>)
    ensures
        store_extends(final(metas).entries@, old(metas).entries@),
        final(metas).entries@.len() == old(metas).entries@.len(),
        fuel > 0 ==> (**value1 matches Value::Universe(a) ==> (**value2 matches Value::Universe(b)
            ==> ((r is Ok <==> a <= b) && final(metas).entries@ == old(metas).entries@))),
        fuel > 0 ==> (**value1 matches Value::LiteralType(a) ==> (**value2
            matches Value::LiteralType(b) ==> (r is Ok <==> a == b))),
        fuel > 0 ==> (**value1 matches Value::LiteralIntro(a) ==> (**value2
            matches Value::LiteralIntro(b) ==> (r is Ok
            <==> crate::syntax::lit_intro_alpha_eq(a, b)))),
        (fuel > 0 && **value1 is RecordTypeEmpty && **value2 is RecordTypeEmpty) ==> r is Ok,
        fuel > 0 ==> (**value1 matches Value::Neutral(Head::Var(l1), sp1) ==> (**value2
            matches Value::Neutral(Head::Var(l2), sp2) ==> (l1 != l2 ==> r is Err))),
        fuel > 0 ==> (**value1 matches Value::Neutral(Head::Var(l1), sp1) ==> (**value2
            matches Value::Neutral(Head::Var(l2), sp2) ==> ((l1 == l2 && sp1@.len() == 0
            && sp2@.len() == 0) ==> (r is Ok && final(metas).entries@
            == old(metas).entries@)))),
        fuel > 1 ==> (**value1 matches Value::Neutral(Head::Var(l1), sp1) ==> (**value2
            matches Value::Neutral(Head::Var(l2), sp2) ==> ((l1 == l2 && sp1@.len() == 1
            && sp2@.len() == 1) ==> (sp1@[0] matches Elim::Fun(m1, a1) ==> ((*a1)
            matches Value::Neutral(Head::Var(la), aspa) ==> (sp2@[0] matches Elim::Fun(m2, a2)
            ==> ((*a2) matches Value::Neutral(Head::Var(lb), aspb) ==> ((app_mode_agree(m1, m2)
            && aspa@.len() == 0 && aspb@.len() == 0 && la == lb) ==> r is Ok)))))))),
        fuel > 3 ==> (**value1 matches Value::Neutral(Head::Meta(m), sp) ==> ((sp@.len() == 0 && (
        m as int) < old(metas).entries@.len() && old(metas).entries@[m as int] is Unsolved) ==> (
        **value2 matches Value::LiteralIntro(li) ==> (r is Ok && (
        final(metas).entries@[m as int] matches MetaEntry::Solved { value: w } && *w
            == Value::LiteralIntro(li)))))),
        fuel > 3 ==> (**value1 matches Value::Neutral(Head::Meta(m), sp) ==> ((sp@.len() == 0 && (
        m as int) < old(metas).entries@.len() && old(metas).entries@[m as int] is Unsolved) ==> ((
        **value2) matches Value::Neutral(Head::Var(l), sp2) ==> ((sp2@.len() == 0 && (l as int)
            < env_entries(*values).len()) ==> (r matches Err(e) && e == (TypeError::ScopeError {
            span,
            meta: m,
        }) && final(metas).entries@ == old(metas).entries@))))),
        fuel > 4 ==> (**value1 matches Value::Neutral(Head::Meta(m), sp) ==> ((sp@.len() == 0 && (
        m as int) < old(metas).entries@.len() && old(metas).entries@[m as int] is Unsolved
            && env_entries(*values).len() < usize::MAX) ==> ((**value2) matches Value::FunType(
            mode,
            p,
            clo,
        ) ==> ((*p) matches Value::Neutral(Head::Meta(m1), psp) ==> ((*clo.term)
            matches Term::Meta(m2) ==> ((psp@.len() == 0 && m1 == m && (m2 as int) < old(
            metas,
        ).entries@.len() && old(metas).entries@[m2 as int] is Unsolved) ==> (r matches Err(e) && e
            == (TypeError::OccursCheck { span, meta: m }) && final(metas).entries@ == old(
            metas,
        ).entries@))))))),
        fuel > 2 ==> (**value1 matches Value::Neutral(Head::Meta(m), sp) ==> (((m as int) < old(
            metas,
        ).entries@.len() && old(metas).entries@[m as int] is Unsolved && spine_args_forced(
            old(metas).entries@,
            sp@,
        ) && (exists|j: int| 0 <= j < sp@.len() && !elim_is_bare_var_app(#[trigger] sp@[j]))) ==> (
        **value2 matches Value::LiteralIntro(li) ==> (r matches Err(e) && e == (
        TypeError::SpineNotPattern { span }) && final(metas).entries@ == old(
            metas,
        ).entries@)))),
        fuel > 5 ==> (**value1 matches Value::FunIntro(mode1, clo) ==> ((*clo.term)
            matches Term::FunElim(g, m_in, a) ==> ((*g) matches Term::Var(ig) ==> ((*a)
            matches Term::Var(ia) ==> ((**value2) matches Value::Neutral(Head::Var(l2), sp2) ==> ((
        ig == 1 && ia == 0 && sp2@.len() == 0 && env_entries(clo.env).len() >= 1 && env_entries(
            clo.env,
        ).last() == **value2 && app_mode_agree(m_in, mode1)) ==> r is Ok)))))),
        fuel > 0 ==> (**value1 matches Value::RecordIntro(fs1) ==> (((!(**value2 is RecordIntro))
            && (!(**value2 is FunIntro)) && neutral_head_rigid(**value2)) ==> (r matches Err(e)
            && e == (TypeError::UnsupportedRecordEta { span }) && final(metas).entries@ == old(
            metas,
        ).entries@))),
        fuel > 0 ==> (**value2 matches Value::RecordIntro(fs2) ==> (((!(**value1 is RecordIntro))
            && (!(**value1 is FunIntro)) && neutral_head_rigid(**value1)) ==> (r matches Err(e)
            && e == (TypeError::UnsupportedRecordEta { span }) && final(metas).entries@ == old(
            metas,
        ).entries@))),
        fuel > 0 ==> (**value1 matches Value::RecordIntro(fs1) ==> (**value2
            matches Value::RecordIntro(fs2) ==> (fs1@.len() != fs2@.len() ==> (r matches Err(e)
            && e == (TypeError::UnsupportedRecordEta { span }) && final(metas).entries@ == old(
            metas,
        ).entries@)))),
    decreases fuel,
{
    if fuel == 0 {
        return Err(TypeError::OutOfFuel);
    }
    let f = fuel - 1;
    let forced1 = force(prims, metas, span, value1, f)?;
    let forced2 = force(prims, metas, span, value2, f)?;
    match (&*forced1, &*forced2) {
        (Value::Neutral(head1, spine1), Value::Neutral(head2, spine2)) => {
            if *head1 == *head2 && spine1.len() == spine2.len() {
                let n = spine1.len();
                let mut i: usize = 0;
                while i < n
                    invariant
                        i <= n,
                        store_extends(metas.entries@, old(metas).entries@),
                        metas.entries@.len() == old(metas).entries@.len(),
                        n == 0 ==> metas.entries@ == old(metas).entries@,
                    decreases n - i,
                {
                    match (&spine1[i], &spine2[i]) {
                        (Elim::Fun(mode1, arg1), Elim::Fun(mode2, arg2)) => {
                            if app_mode_eq(mode1, mode2) {
                                unify_values(prims, metas, values, span, arg1, arg2, f)?;
                            } else {
                                return Err(TypeError::NotEqual { span });
                            }
                        },
                        (Elim::Record(label1), Elim::Record(label2)) => {
                            if !(*label1 == *label2) {
                                return Err(TypeError::NotEqual { span });
                            }
                        },
                        (Elim::Literal(closure1), Elim::Literal(closure2)) => {
                            let probe = Value::var(values.size());
                            let mut values2 = values.dup();
                            values2.add_entry(rc_dup(&probe));
                            let val1 = eval_literal_elim(
                                prims,
                                metas,
                                span,
                                rc_dup(&probe),
                                dup_literal_closure(closure1),
                                f,
                            )?;
                            let val2 = eval_literal_elim(
                                prims,
                                metas,
                                span,
                                probe,
                                dup_literal_closure(closure2),
                                f,
                            )?;
                            unify_values(prims, metas, &values2, span, &val1, &val2, f)?;
                        },
                        _ => {
                            return Err(TypeError::NotEqual { span });
                        },
                    }
                    i += 1;
                }
                Ok(())
            } else {
                match head1 {
                    Head::Meta(m) => solve_neutral(
                        prims,
                        metas,
                        values,
                        span,
                        *m,
                        spine1,
                        &forced2,
                        f,
                    ),
                    Head::Var(_) => match head2 {
                        Head::Meta(m) => solve_neutral(
                            prims,
                            metas,
                            values,
                            span,
                            *m,
                            spine2,
                            &forced1,
                            f,
                        ),
                        Head::Var(_) => Err(TypeError::NotEqual { span }),
                    },
                }
            }
        },
        (Value::Neutral(Head::Meta(m), spine), _) => solve_neutral(
            prims,
            metas,
            values,
            span,
            *m,
            spine,
            &forced2,
            f,
        ),
        (_, Value::Neutral(Head::Meta(m), spine)) => solve_neutral(
            prims,
            metas,
            values,
            span,
            *m,
            spine,
            &forced1,
            f,
        ),
        (Value::LiteralIntro(li1), Value::LiteralIntro(li2)) => {
            if crate::syntax::lit_intro_eq(li1, li2) {
                Ok(())
            } else {
                Err(TypeError::NotEqual { span })
            }
        },
        (Value::LiteralType(lt1), Value::LiteralType(lt2)) => {
            if crate::syntax::lit_ty_eq(lt1, lt2) {
                Ok(())
            } else {
                Err(TypeError::NotEqual { span })
            }
        },
        (Value::FunType(mode1, param_ty1, body_ty1), Value::FunType(mode2, param_ty2, body_ty2)) => {
            if app_mode_eq(mode1, mode2) {
                unify_values(prims, metas, values, span, param_ty1, param_ty2, f)?;
                let probe = Value::var(values.size());
                let mut values2 = values.dup();
                values2.add_entry(rc_dup(&probe));
                let b1 = app_closure(prims, metas, span, body_ty1, rc_dup(&probe), f)?;
                let b2 = app_closure(prims, metas, span, body_ty2, probe, f)?;
                unify_values(prims, metas, &values2, span, &b1, &b2, f)
            } else {
                Err(TypeError::NotEqual { span })
            }
        },
        (Value::FunIntro(mode1, body1), Value::FunIntro(mode2, body2)) => {
            if app_mode_eq(mode1, mode2) {
                let probe = Value::var(values.size());
                let mut values2 = values.dup();
                values2.add_entry(rc_dup(&probe));
                let b1 = app_closure(prims, metas, span, body1, rc_dup(&probe), f)?;
                let b2 = app_closure(prims, metas, span, body2, probe, f)?;
                unify_values(prims, metas, &values2, span, &b1, &b2, f)
            } else {
                Err(TypeError::NotEqual { span })
            }
        },
        // Function η: `(fun x => f x)` unifies with `f`.
        (Value::FunIntro(mode1, body1), _) => {
            let probe = Value::var(values.size());
            let mut values2 = values.dup();
            values2.add_entry(rc_dup(&probe));
            let b1 = app_closure(prims, metas, span, body1, rc_dup(&probe), f)?;
            let b2 = eval_fun_elim(prims, metas, span, rc_dup(&forced2), mode1, probe, f)?;
            unify_values(prims, metas, &values2, span, &b1, &b2, f)
        },
        (_, Value::FunIntro(mode2, body2)) => {
            let probe = Value::var(values.size());
            let mut values2 = values.dup();
            values2.add_entry(rc_dup(&probe));
            let b2 = app_closure(prims, metas, span, body2, rc_dup(&probe), f)?;
            let b1 = eval_fun_elim(prims, metas, span, rc_dup(&forced1), mode2, probe, f)?;
            unify_values(prims, metas, &values2, span, &b1, &b2, f)
        },
        (
            Value::RecordTypeExtend(_, label1, field_ty1, rest1),
            Value::RecordTypeExtend(_, label2, field_ty2, rest2),
        ) => {
            if *label1 == *label2 {
                unify_values(prims, metas, values, span, field_ty1, field_ty2, f)?;
                let probe = Value::var(values.size());
                let mut values2 = values.dup();
                values2.add_entry(rc_dup(&probe));
                let r1 = app_closure(prims, metas, span, rest1, rc_dup(&probe), f)?;
                let r2 = app_closure(prims, metas, span, rest2, probe, f)?;
                unify_values(prims, metas, &values2, span, &r1, &r2, f)
            } else {
                Err(TypeError::NotEqual { span })
            }
        },
        (Value::RecordTypeEmpty, Value::RecordTypeEmpty) => Ok(()),
        (Value::RecordIntro(fields1), Value::RecordIntro(fields2)) => {
            if fields1.len() == fields2.len() {
                let n = fields1.len();
                let mut i: usize = 0;
                while i < n
                    invariant
                        i <= n,
                        store_extends(metas.entries@, old(metas).entries@),
                        metas.entries@.len() == old(metas).entries@.len(),
                    decreases n - i,
                {
                    let (label1, v1) = &fields1[i];
                    let (label2, v2) = &fields2[i];
                    if *label1 == *label2 {
                        unify_values(prims, metas, values, span, v1, v2, f)?;
                    } else {
                        return Err(TypeError::NotEqual { span });
                    }
                    i += 1;
                }
                Ok(())
            } else {
                // Record η is out of scope: report it apart from
                // disequality.
                Err(TypeError::UnsupportedRecordEta { span })
            }
        },
        (Value::RecordIntro(_), _) => Err(TypeError::UnsupportedRecordEta { span }),
        (_, Value::RecordIntro(_)) => Err(TypeError::UnsupportedRecordEta { span }),
        (Value::Universe(level1), Value::Universe(level2)) => {
            if *level1 <= *level2 {
                Ok(())
            } else {
                Err(TypeError::UniverseMismatch { span, found: *level1, expected: *level2 })
            }
        },
        (_, _) => Err(TypeError::NotEqual { span }),
    }
}

} // verus!
