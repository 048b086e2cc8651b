use std::rc::Rc;

use mltt_elaborate::context::Context;
use mltt_elaborate::domain::{Elim, Env, Head, Value};
use mltt_elaborate::errors::TypeError;
use mltt_elaborate::meta::MetaStore;
use mltt_elaborate::nbe;
use mltt_elaborate::prim::PrimEnv;
use mltt_elaborate::syntax::{AppMode, LiteralIntro, Span, Term};

const FUEL: u64 = 1_000_000;

fn sp() -> Span {
    Span::new(0, 0)
}

#[test]
fn beta_reduction_normalizes() {
    // `(λ x. x) true` normalizes to `true`.
    let metas = MetaStore::new();
    let prims = PrimEnv::new();
    let env = Env::new();
    let term = Term::FunElim(
        Rc::new(Term::FunIntro(AppMode::Explicit, Term::var(0))),
        AppMode::Explicit,
        Rc::new(Term::LiteralIntro(LiteralIntro::Bool(true))),
    );
    let norm = nbe::normalize(&prims, &metas, &env, sp(), &term, FUEL).unwrap();
    assert_eq!(norm, Rc::new(Term::LiteralIntro(LiteralIntro::Bool(true))));
}

#[test]
fn normalize_idempotent() {
    // normalize(normalize(t)) == normalize(t).
    let metas = MetaStore::new();
    let prims = PrimEnv::new();
    let env = Env::new();
    let redex = Term::FunElim(
        Rc::new(Term::FunIntro(AppMode::Explicit, Term::var(0))),
        AppMode::Explicit,
        Rc::new(Term::FunIntro(
            AppMode::Explicit,
            Rc::new(Term::LiteralIntro(LiteralIntro::Bool(false))),
        )),
    );
    let once = nbe::normalize(&prims, &metas, &env, sp(), &redex, FUEL).unwrap();
    let twice = nbe::normalize(&prims, &metas, &env, sp(), &once, FUEL).unwrap();
    assert_eq!(once, twice);
}

#[test]
fn read_back_inverts_eval_on_normal_forms() {
    // For β-normal, η-long `t`, read_back(eval(t)) == t.
    let metas = MetaStore::new();
    let prims = PrimEnv::new();
    let env = Env::new();

    let identity = Rc::new(Term::FunIntro(AppMode::Explicit, Term::var(0)));
    let v = nbe::eval(&prims, &metas, &env, sp(), &identity, FUEL).unwrap();
    let back = nbe::read_back(&prims, &metas, 0, sp(), &v, FUEL).unwrap();
    assert_eq!(back, identity);

    let two_arg = Rc::new(Term::FunIntro(
        AppMode::Explicit,
        Rc::new(Term::FunIntro(AppMode::Explicit, Term::var(1))),
    ));
    let v2 = nbe::eval(&prims, &metas, &env, sp(), &two_arg, FUEL).unwrap();
    let back2 = nbe::read_back(&prims, &metas, 0, sp(), &v2, FUEL).unwrap();
    assert_eq!(back2, two_arg);
}

#[test]
fn forcing_is_a_fixed_point() {
    // After the store stops changing, force(force(v)) == force(v).
    let mut metas = MetaStore::new();
    let prims = PrimEnv::new();
    let env = Env::new();

    let m = metas.add_unsolved(sp(), Value::universe(0));
    let v = Rc::new(Value::Neutral(
        Head::Meta(m),
        vec![Elim::Fun(
            AppMode::Explicit,
            Value::literal_intro(LiteralIntro::Bool(true)),
        )],
    ));

    // While unsolved, the value is already forced.
    let u1 = nbe::force(&prims, &metas, sp(), &v, FUEL).unwrap();
    assert_eq!(u1, v);

    // Solve `?m := λ x. x` and force: the spine replays to `true`.
    let id_term = Rc::new(Term::FunIntro(AppMode::Explicit, Term::var(0)));
    let id_value = nbe::eval(&prims, &metas, &env, sp(), &id_term, FUEL).unwrap();
    metas.add_solved(m, id_value);

    let f1 = nbe::force(&prims, &metas, sp(), &v, FUEL).unwrap();
    let f2 = nbe::force(&prims, &metas, sp(), &f1, FUEL).unwrap();
    assert_eq!(f1, Value::literal_intro(LiteralIntro::Bool(true)));
    assert_eq!(f1, f2);
}

#[test]
fn evaluation_runs_out_of_fuel_on_divergence() {
    // Ω = (λ x. x x) (λ x. x x) exhausts any budget.
    let metas = MetaStore::new();
    let prims = PrimEnv::new();
    let env = Env::new();
    let self_app = Rc::new(Term::FunIntro(
        AppMode::Explicit,
        Rc::new(Term::FunElim(Term::var(0), AppMode::Explicit, Term::var(0))),
    ));
    let omega = Term::FunElim(
        self_app.clone(),
        AppMode::Explicit,
        self_app,
    );
    let res = nbe::eval(&prims, &metas, &env, sp(), &omega, 1_000);
    assert_eq!(res, Err(TypeError::OutOfFuel));
}

#[test]
fn unbound_index_is_a_bug() {
    let metas = MetaStore::new();
    let prims = PrimEnv::new();
    let env = Env::new();
    let res = nbe::eval(&prims, &metas, &env, sp(), &Term::Var(5), FUEL);
    assert_eq!(res, Err(TypeError::Bug { span: sp() }));
}

#[test]
fn eval_inlines_lets_and_erases_annotations() {
    let metas = MetaStore::new();
    let prims = PrimEnv::new();
    let env = Env::new();
    // let b = true in (b : Bool)
    let term = Term::Let(
        Rc::new(Term::LiteralIntro(LiteralIntro::Bool(true))),
        Rc::new(Term::Ann(
            Term::var(0),
            Rc::new(Term::LiteralType(
                mltt_elaborate::syntax::LiteralType::Bool,
            )),
        )),
    );
    let norm = nbe::normalize(&prims, &metas, &env, sp(), &term, FUEL).unwrap();
    assert_eq!(norm, Rc::new(Term::LiteralIntro(LiteralIntro::Bool(true))));
}

#[test]
fn normalize_in_context_environment() {
    // Normalizing `true` (as a bound name) in the default context.
    let context = Context::default();
    let metas = MetaStore::new();
    let binder = context.lookup_binder(&"true".to_string()).unwrap();
    let term = Term::Var(binder.0);
    let norm = context.normalize_term(&metas, sp(), &term, FUEL).unwrap();
    assert_eq!(norm, Rc::new(Term::LiteralIntro(LiteralIntro::Bool(true))));
}

#[test]
fn literal_elimination_takes_matching_clause() {
    // match true { false => false; _ x => x } evaluates through the default,
    // and match true { true => false; _ x => x } through the clause.
    let metas = MetaStore::new();
    let prims = PrimEnv::new();
    let env = Env::new();
    let tru = Rc::new(Term::LiteralIntro(LiteralIntro::Bool(true)));
    let fls = Rc::new(Term::LiteralIntro(LiteralIntro::Bool(false)));

    let with_clause = Term::LiteralElim(
        tru.clone(),
        Rc::new(vec![(LiteralIntro::Bool(true), fls.clone())]),
        Term::var(0),
    );
    let norm = nbe::normalize(&prims, &metas, &env, sp(), &with_clause, FUEL).unwrap();
    assert_eq!(norm, fls);

    let with_default = Term::LiteralElim(
        tru.clone(),
        Rc::new(vec![(LiteralIntro::Bool(false), fls.clone())]),
        Term::var(0),
    );
    let norm2 = nbe::normalize(&prims, &metas, &env, sp(), &with_default, FUEL).unwrap();
    assert_eq!(norm2, tru);
}

#[test]
fn stuck_literal_elimination_reads_back() {
    // A literal elimination of a free variable stays stuck on its spine and
    // reads back to the same term.
    let metas = MetaStore::new();
    let mut context = Context::empty();
    context.add_param(
        "b".to_string(),
        Value::literal_ty(mltt_elaborate::syntax::LiteralType::Bool),
    );
    let term = Rc::new(Term::LiteralElim(
        Term::var(0),
        Rc::new(vec![(
            LiteralIntro::Bool(true),
            Rc::new(Term::LiteralIntro(LiteralIntro::Bool(false))),
        )]),
        Term::var(0),
    ));
    let v = context.eval_term(&metas, sp(), &term, FUEL).unwrap();
    match &*v {
        Value::Neutral(Head::Var(0), spine) => assert_eq!(spine.len(), 1),
        other => panic!("expected a stuck elimination, got {:?}", other),
    }
    let back = context.read_back_value(&metas, sp(), &v, FUEL).unwrap();
    assert_eq!(back, term);
}
