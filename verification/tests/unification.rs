use std::rc::Rc;

use mltt_elaborate::context::Context;
use mltt_elaborate::domain::{Elim, Head, Value};
use mltt_elaborate::errors::TypeError;
use mltt_elaborate::meta::MetaStore;
use mltt_elaborate::syntax::{AppMode, LiteralIntro, LiteralType, Span, Term};

const FUEL: u64 = 1_000_000;

fn sp() -> Span {
    Span::new(0, 0)
}

#[test]
fn cumulativity_accepts_smaller_levels() {
    // Universe(a) unifies as a subtype of Universe(b) iff a <= b.
    let context = Context::empty();
    let mut metas = MetaStore::new();
    assert_eq!(
        context.unify_values(&mut metas, sp(), &Value::universe(0), &Value::universe(0), FUEL),
        Ok(())
    );
    assert_eq!(
        context.unify_values(&mut metas, sp(), &Value::universe(0), &Value::universe(3), FUEL),
        Ok(())
    );
    assert_eq!(
        context.unify_values(&mut metas, sp(), &Value::universe(2), &Value::universe(1), FUEL),
        Err(TypeError::UniverseMismatch { span: sp(), found: 2, expected: 1 })
    );
}

#[test]
fn function_eta_unifies() {
    // `(λ x. f x)` unifies with `f` where `f : Bool → Bool`.
    let mut context = Context::empty();
    let mut metas = MetaStore::new();

    let fun_ty_term = Term::FunType(
        AppMode::Explicit,
        Rc::new(Term::LiteralType(LiteralType::Bool)),
        Rc::new(Term::LiteralType(LiteralType::Bool)),
    );
    let fun_ty = context.eval_term(&metas, sp(), &fun_ty_term, FUEL).unwrap();
    let f = context.add_param("f".to_string(), fun_ty);

    // λ x. f x, where inside the lambda `f` has index 1.
    let eta_term = Term::FunIntro(
        AppMode::Explicit,
        Rc::new(Term::FunElim(Term::var(1), AppMode::Explicit, Term::var(0))),
    );
    let eta = context.eval_term(&metas, sp(), &eta_term, FUEL).unwrap();

    assert_eq!(context.unify_values(&mut metas, sp(), &eta, &f, FUEL), Ok(()));
    assert_eq!(context.unify_values(&mut metas, sp(), &f, &eta, FUEL), Ok(()));
    assert_eq!(metas.len(), 0);
}

#[test]
fn pattern_solving_finds_identity() {
    // Solving `?m x ≡ x` gives `?m := λ x. x`.
    let mut context = Context::empty();
    let mut metas = MetaStore::new();
    let m = metas.add_unsolved(sp(), Value::universe(0));
    let x = context.add_param("x".to_string(), Value::literal_ty(LiteralType::Bool));
    let lhs = Rc::new(Value::Neutral(
        Head::Meta(m),
        vec![Elim::Fun(AppMode::Explicit, x.clone())],
    ));

    assert_eq!(context.unify_values(&mut metas, sp(), &lhs, &x, FUEL), Ok(()));

    let solution = metas.lookup_solved(m).unwrap();
    // Solutions are evaluated in an empty environment.
    let expected = mltt_elaborate::nbe::eval(
        context.prims(),
        &MetaStore::new(),
        &mltt_elaborate::domain::Env::new(),
        sp(),
        &Term::FunIntro(AppMode::Explicit, Term::var(0)),
        FUEL,
    )
    .unwrap();
    // The solution is the identity — not the constant function.
    assert_eq!(solution, expected);
    assert!(metas.report_unsolved().is_ok());
}

fn solve_identity_equation() -> Rc<Value> {
    let mut context = Context::empty();
    let mut metas = MetaStore::new();
    let m = metas.add_unsolved(sp(), Value::universe(0));
    let x = context.add_param("x".to_string(), Value::literal_ty(LiteralType::Bool));
    let lhs = Rc::new(Value::Neutral(
        Head::Meta(m),
        vec![Elim::Fun(AppMode::Explicit, x.clone())],
    ));
    context.unify_values(&mut metas, sp(), &lhs, &x, FUEL).unwrap();
    metas.lookup_solved(m).unwrap()
}

#[test]
fn pattern_solving_is_deterministic() {
    // Solving the same flex-rigid equation twice yields the same solution.
    assert_eq!(solve_identity_equation(), solve_identity_equation());
}

#[test]
fn non_variable_spine_is_rejected() {
    // Solving `?m true ≡ true` under the strict bound-variable pattern rule.
    let context = Context::empty();
    let mut metas = MetaStore::new();
    let m = metas.add_unsolved(sp(), Value::universe(0));
    let tr = Value::literal_intro(LiteralIntro::Bool(true));
    let lhs = Rc::new(Value::Neutral(
        Head::Meta(m),
        vec![Elim::Fun(AppMode::Explicit, tr.clone())],
    ));
    assert_eq!(
        context.unify_values(&mut metas, sp(), &lhs, &tr, FUEL),
        Err(TypeError::SpineNotPattern { span: sp() })
    );
}

#[test]
fn occurs_check_fires() {
    // `?m ≡ ?m → ?m` fails the occurs check.
    let context = Context::empty();
    let mut metas = MetaStore::new();
    let m = metas.add_unsolved(sp(), Value::universe(0));
    let lhs = Rc::new(Value::Neutral(Head::Meta(m), Vec::new()));
    let arrow_term = Term::FunType(
        AppMode::Explicit,
        Rc::new(Term::Meta(m)),
        Rc::new(Term::Meta(m)),
    );
    let rhs = context.eval_term(&metas, sp(), &arrow_term, FUEL).unwrap();
    assert_eq!(
        context.unify_values(&mut metas, sp(), &lhs, &rhs, FUEL),
        Err(TypeError::OccursCheck { span: sp(), meta: m })
    );
}

#[test]
fn scope_check_fires() {
    // In context `(x : A)`, solving `?m ≡ x` where `?m` was created before
    // `x` entered scope: the spine did not capture `x`'s level.
    let mut context = Context::empty();
    let mut metas = MetaStore::new();
    let m = metas.add_unsolved(sp(), Value::universe(0));
    let x = context.add_param("x".to_string(), Value::universe(0));
    let lhs = Rc::new(Value::Neutral(Head::Meta(m), Vec::new()));
    assert_eq!(
        context.unify_values(&mut metas, sp(), &lhs, &x, FUEL),
        Err(TypeError::ScopeError { span: sp(), meta: m })
    );
}

#[test]
fn record_eta_is_reported_apart() {
    let mut context = Context::empty();
    let mut metas = MetaStore::new();
    let x = context.add_param("x".to_string(), Value::universe(0));
    let record = Rc::new(Value::RecordIntro(vec![(
        "fst".to_string(),
        Value::literal_intro(LiteralIntro::Bool(true)),
    )]));
    assert_eq!(
        context.unify_values(&mut metas, sp(), &record, &x, FUEL),
        Err(TypeError::UnsupportedRecordEta { span: sp() })
    );
    assert_eq!(
        context.unify_values(&mut metas, sp(), &x, &record, FUEL),
        Err(TypeError::UnsupportedRecordEta { span: sp() })
    );
}

#[test]
fn distinct_literal_types_do_not_unify() {
    let context = Context::empty();
    let mut metas = MetaStore::new();
    assert_eq!(
        context.unify_values(
            &mut metas,
            sp(),
            &Value::literal_ty(LiteralType::Bool),
            &Value::literal_ty(LiteralType::String),
            FUEL
        ),
        Err(TypeError::NotEqual { span: sp() })
    );
}

#[test]
fn solved_metas_fold_before_comparison() {
    // A neutral headed by a solved meta is re-forced before comparison, so
    // it unifies with what the solution computes to.
    let context = Context::empty();
    let mut metas = MetaStore::new();
    let m = metas.add_unsolved(sp(), Value::universe(0));
    let id_value = context
        .eval_term(&metas, sp(), &Term::FunIntro(AppMode::Explicit, Term::var(0)), FUEL)
        .unwrap();
    metas.add_solved(m, id_value);
    let tr = Value::literal_intro(LiteralIntro::Bool(true));
    let lhs = Rc::new(Value::Neutral(
        Head::Meta(m),
        vec![Elim::Fun(AppMode::Explicit, tr.clone())],
    ));
    assert_eq!(context.unify_values(&mut metas, sp(), &lhs, &tr, FUEL), Ok(()));
}
