use std::rc::Rc;

use mltt_elaborate::context::Context;
use mltt_elaborate::domain::Value;
use mltt_elaborate::elaborate::{check, check_ty, synth};
use mltt_elaborate::errors::TypeError;
use mltt_elaborate::meta::MetaStore;
use mltt_elaborate::raw::RawTerm;
use mltt_elaborate::syntax::{AppMode, LiteralIntro, LiteralType, Span, Term};

const FUEL: u64 = 1_000_000;

fn sp() -> Span {
    Span::new(0, 0)
}

fn var(name: &str) -> Rc<RawTerm> {
    Rc::new(RawTerm::Var(name.to_string(), sp()))
}

fn lam(name: &str, body: Rc<RawTerm>) -> Rc<RawTerm> {
    Rc::new(RawTerm::FunIntro(name.to_string(), body, sp()))
}

fn app(fun: Rc<RawTerm>, arg: Rc<RawTerm>) -> Rc<RawTerm> {
    Rc::new(RawTerm::FunApp(fun, arg, sp()))
}

fn ann(term: Rc<RawTerm>, ty: Rc<RawTerm>) -> Rc<RawTerm> {
    Rc::new(RawTerm::Ann(term, ty, sp()))
}

fn arrow(binder: Option<&str>, param: Rc<RawTerm>, body: Rc<RawTerm>) -> Rc<RawTerm> {
    Rc::new(RawTerm::FunType(binder.map(|s| s.to_string()), param, body, sp()))
}

/// `(A : Type 0) → A → A`
fn polymorphic_identity_ty() -> Rc<RawTerm> {
    arrow(
        Some("A"),
        Rc::new(RawTerm::Universe(0, sp())),
        arrow(None, var("A"), var("A")),
    )
}

#[test]
fn polymorphic_identity_checks() {
    // `λ A. λ x. x : (A : Type 0) → A → A` elaborates to a two-argument
    // lambda with no metavariables left behind.
    let context = Context::default();
    let mut metas = MetaStore::new();
    let raw = ann(lam("A", lam("x", var("x"))), polymorphic_identity_ty());
    let (core, _ty) = synth(&context, &mut metas, &raw, FUEL).unwrap();
    let expected = Rc::new(Term::FunIntro(
        AppMode::Explicit,
        Rc::new(Term::FunIntro(AppMode::Explicit, Term::var(0))),
    ));
    assert_eq!(core, expected);
    assert_eq!(metas.len(), 0);
    assert!(metas.report_unsolved().is_ok());
}

#[test]
fn let_bound_identity_synthesizes_bool() {
    // `let id = λ A. λ x. x : (A : Type 0) → A → A in id Bool true`
    // synthesizes `Bool`.
    let context = Context::default();
    let mut metas = MetaStore::new();
    let raw = Rc::new(RawTerm::Let(
        "id".to_string(),
        ann(lam("A", lam("x", var("x"))), polymorphic_identity_ty()),
        app(app(var("id"), var("Bool")), var("true")),
        sp(),
    ));
    let (_core, ty) = synth(&context, &mut metas, &raw, FUEL).unwrap();
    assert_eq!(ty, Value::literal_ty(LiteralType::Bool));
}

#[test]
fn lambda_against_universe_fails() {
    // `λ x. x` checked against `Type 0` fails with `ExpectedFunType`.
    let context = Context::default();
    let mut metas = MetaStore::new();
    let expected_ty = Value::universe(0);
    let res = check(&context, &mut metas, &lam("x", var("x")), &expected_ty, FUEL);
    assert_eq!(
        res,
        Err(TypeError::ExpectedFunType { span: sp(), found: Value::universe(0) })
    );
}

#[test]
fn unbound_variable_is_reported() {
    let context = Context::default();
    let mut metas = MetaStore::new();
    let res = synth(&context, &mut metas, &var("nope"), FUEL);
    assert_eq!(
        res,
        Err(TypeError::UnboundVariable { span: sp(), name: "nope".to_string() })
    );
}

#[test]
fn bare_lambda_is_ambiguous() {
    let context = Context::default();
    let mut metas = MetaStore::new();
    let res = synth(&context, &mut metas, &lam("x", var("x")), FUEL);
    assert_eq!(res, Err(TypeError::AmbiguousTerm { span: sp() }));
}

#[test]
fn universe_needs_larger_universe() {
    let context = Context::default();
    let mut metas = MetaStore::new();
    let u0 = Rc::new(RawTerm::Universe(0, sp()));
    let ok = check(&context, &mut metas, &u0, &Value::universe(1), FUEL);
    assert_eq!(ok, Ok(Rc::new(Term::Universe(0))));
    let not_ok = check(&context, &mut metas, &u0, &Value::universe(0), FUEL);
    assert_eq!(
        not_ok,
        Err(TypeError::ExpectedUniverse {
            span: sp(),
            over: Some(0),
            found: Value::universe(0),
        })
    );
}

#[test]
fn non_type_is_rejected_by_check_ty() {
    let context = Context::default();
    let mut metas = MetaStore::new();
    let res = check_ty(&context, &mut metas, &var("true"), FUEL);
    assert_eq!(
        res,
        Err(TypeError::ExpectedUniverse {
            span: sp(),
            over: None,
            found: Value::literal_ty(LiteralType::Bool),
        })
    );
}

#[test]
fn projection_needs_a_pair() {
    let context = Context::default();
    let mut metas = MetaStore::new();
    let res = synth(
        &context,
        &mut metas,
        &Rc::new(RawTerm::PairFst(var("true"), sp())),
        FUEL,
    );
    assert_eq!(
        res,
        Err(TypeError::ExpectedPairType {
            span: sp(),
            found: Value::literal_ty(LiteralType::Bool),
        })
    );
}

#[test]
fn pairs_elaborate_to_records() {
    // `⟨true, false⟩ : Bool × Bool`, then both projections.
    let context = Context::default();
    let mut metas = MetaStore::new();
    let pair_ty = Rc::new(RawTerm::PairType(None, var("Bool"), var("Bool"), sp()));
    let pair = ann(
        Rc::new(RawTerm::PairIntro(var("true"), var("false"), sp())),
        pair_ty,
    );
    let (core, _ty) = synth(&context, &mut metas, &pair, FUEL).unwrap();
    match &*core {
        Term::RecordIntro(fields) => {
            assert_eq!(fields.len(), 2);
            assert_eq!(fields[0].0, "fst".to_string());
            assert_eq!(fields[1].0, "snd".to_string());
        }
        other => panic!("expected a record, got {:?}", other),
    }

    let (fst_core, fst_ty) = synth(
        &context,
        &mut metas,
        &Rc::new(RawTerm::PairFst(pair.clone(), sp())),
        FUEL,
    )
    .unwrap();
    assert_eq!(fst_ty, Value::literal_ty(LiteralType::Bool));
    let norm = context.normalize_term(&metas, sp(), &fst_core, FUEL).unwrap();
    assert_eq!(norm, Rc::new(Term::LiteralIntro(LiteralIntro::Bool(true))));

    let (snd_core, snd_ty) = synth(
        &context,
        &mut metas,
        &Rc::new(RawTerm::PairSnd(pair, sp())),
        FUEL,
    )
    .unwrap();
    assert_eq!(snd_ty, Value::literal_ty(LiteralType::Bool));
    let norm2 = context.normalize_term(&metas, sp(), &snd_core, FUEL).unwrap();
    assert_eq!(norm2, Rc::new(Term::LiteralIntro(LiteralIntro::Bool(false))));
}

#[test]
fn application_normalizes_to_true() {
    // `(λ x. x : Bool → Bool)` applied to `true` normalizes to `true`.
    let context = Context::default();
    let mut metas = MetaStore::new();
    let raw = app(
        ann(lam("x", var("x")), arrow(None, var("Bool"), var("Bool"))),
        var("true"),
    );
    let (core, ty) = synth(&context, &mut metas, &raw, FUEL).unwrap();
    assert_eq!(ty, Value::literal_ty(LiteralType::Bool));
    let norm = context.normalize_term(&metas, sp(), &core, FUEL).unwrap();
    assert_eq!(norm, Rc::new(Term::LiteralIntro(LiteralIntro::Bool(true))));
}

#[test]
fn literals_check_against_their_types() {
    let context = Context::default();
    let mut metas = MetaStore::new();
    let bool_ty = Value::literal_ty(LiteralType::Bool);
    let u8_ty = Value::literal_ty(LiteralType::U8);
    let lit_true = Rc::new(RawTerm::LiteralIntro(LiteralIntro::Bool(true), sp()));
    let lit_byte = Rc::new(RawTerm::LiteralIntro(LiteralIntro::U8(7), sp()));
    assert_eq!(
        check(&context, &mut metas, &lit_true, &bool_ty, FUEL),
        Ok(Rc::new(Term::LiteralIntro(LiteralIntro::Bool(true))))
    );
    assert_eq!(
        check(&context, &mut metas, &lit_byte, &u8_ty, FUEL),
        Ok(Rc::new(Term::LiteralIntro(LiteralIntro::U8(7))))
    );
    assert_eq!(
        check(&context, &mut metas, &lit_byte, &bool_ty, FUEL),
        Err(TypeError::NotEqual { span: sp() })
    );
    // An unannotated numeric literal has no synthesizing rule.
    assert_eq!(
        synth(&context, &mut metas, &lit_byte, FUEL),
        Err(TypeError::AmbiguousTerm { span: sp() })
    );
}

#[test]
fn unsolved_metas_are_reported() {
    let context = Context::empty();
    let mut metas = MetaStore::new();
    let where_from = Span::new(3, 9);
    context.new_meta(&mut metas, where_from, Value::universe(0));
    assert_eq!(
        metas.report_unsolved(),
        Err(TypeError::UnsolvedMeta { span: where_from })
    );
}
