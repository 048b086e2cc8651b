use std::rc::Rc;

use mltt_elaborate::context::Context;
use mltt_elaborate::domain::Value;
use mltt_elaborate::meta::MetaStore;
use mltt_elaborate::syntax::{AppMode, Span, Term};

#[test]
fn add_params() {
    let mut context = Context::empty();

    let ty1 = Value::universe(0);
    let ty2 = Value::universe(1);
    let ty3 = Value::universe(2);

    let param1 = context.add_param("x".to_string(), ty1.clone());
    let param2 = context.add_param("y".to_string(), ty2.clone());
    let param3 = context.add_param("z".to_string(), ty3.clone());

    assert_eq!(param1, Value::var(0));
    assert_eq!(param2, Value::var(1));
    assert_eq!(param3, Value::var(2));

    assert_eq!(context.lookup_binder(&"x".to_string()).unwrap().1, ty1);
    assert_eq!(context.lookup_binder(&"y".to_string()).unwrap().1, ty2);
    assert_eq!(context.lookup_binder(&"z".to_string()).unwrap().1, ty3);
}

#[test]
fn add_params_shadow() {
    let mut context = Context::empty();

    let ty1 = Value::universe(0);
    let ty2 = Value::universe(1);
    let ty3 = Value::universe(2);

    let param1 = context.add_param("x".to_string(), ty1.clone());
    let param2 = context.add_param("x".to_string(), ty2.clone());
    let param3 = context.add_param("x".to_string(), ty3.clone());

    assert_eq!(param1, Value::var(0));
    assert_eq!(param2, Value::var(1));
    assert_eq!(param3, Value::var(2));

    assert_eq!(context.lookup_binder(&"x".to_string()).unwrap().1, ty3);
}

#[test]
fn add_params_fresh() {
    let mut context = Context::empty();

    let ty1 = Value::universe(0);
    let ty2 = Value::universe(1);
    let ty3 = Value::universe(2);

    let param1 = context.add_param("x".to_string(), ty1.clone());
    let param2 = context.add_fresh_param(ty2.clone());
    let param3 = context.add_fresh_param(ty3.clone());

    assert_eq!(param1, Value::var(0));
    assert_eq!(param2, Value::var(1));
    assert_eq!(param3, Value::var(2));

    assert_eq!(context.lookup_binder(&"x".to_string()).unwrap().1, ty1);
}

#[test]
fn lookup_binder_indices() {
    let mut context = Context::empty();
    context.add_param("x".to_string(), Value::universe(0));
    context.add_param("y".to_string(), Value::universe(0));

    // The earlier binder has the larger index.
    assert_eq!(context.lookup_binder(&"x".to_string()).unwrap().0, 1);
    assert_eq!(context.lookup_binder(&"y".to_string()).unwrap().0, 0);
    assert!(context.lookup_binder(&"z".to_string()).is_none());
}

#[test]
fn new_meta_applies_bound_params() {
    let mut context = Context::empty();
    let mut metas = MetaStore::new();
    let span = Span::new(0, 0);

    context.add_param("x".to_string(), Value::universe(0));
    context.add_param("y".to_string(), Value::universe(0));

    let term = context.new_meta(&mut metas, span, Value::universe(0));
    let expected = Rc::new(Term::FunElim(
        Rc::new(Term::FunElim(
            Rc::new(Term::Meta(0)),
            AppMode::Explicit,
            Term::var(1),
        )),
        AppMode::Explicit,
        Term::var(0),
    ));
    assert_eq!(term, expected);
    assert_eq!(metas.len(), 1);
}

#[test]
fn new_meta_skips_defns() {
    // Let-bound entries consume a level but are not in the meta spine.
    let mut context = Context::empty();
    let mut metas = MetaStore::new();
    let span = Span::new(0, 0);

    context.add_defn(
        "b".to_string(),
        Value::universe(0),
        Value::universe(1),
    );
    let term = context.new_meta(&mut metas, span, Value::universe(0));
    assert_eq!(term, Rc::new(Term::Meta(0)));
}

#[test]
fn display_names_follow_binders() {
    let mut context = Context::empty();
    context.add_param("x".to_string(), Value::universe(0));
    context.add_fresh_param(Value::universe(0));
    assert_eq!(context.display_name(0), Some(Some("x".to_string())));
    assert_eq!(context.display_name(1), Some(None));
    assert_eq!(context.display_name(2), None);
}
