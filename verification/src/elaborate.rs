//! Bidirectional elaboration of raw terms into core terms.
//!
//! Three mutually recursive operations drive checking: `synth` produces a
//! term's type from the context alone, `check` pushes an expected type into
//! a term, and `check_ty` checks that a term is a type (a universe of
//! unspecified level).  Forms with no synthesizing rule are ambiguous on
//! their own and must appear where a type is expected.
//!
//! Raw pair types elaborate into two-field record types labelled `fst` and
//! `snd`; the projections elaborate into record eliminations, with the
//! second projection's type computed from the evaluated first projection.

use vstd::prelude::*;
use std::rc::Rc;
use crate::context::{name_map_entries, Context};
use crate::domain::{env_entries, is_forced_value, rc_dup, Value};
use crate::errors::TypeError;
use crate::meta::{store_extends, MetaStore};
use crate::raw::RawTerm;
use crate::syntax::{dup_app_mode, dup_lit_intro, AppMode, LiteralIntro, LiteralType, Span, Term};

verus! {

/// Whether a literal value has the given literal type.
pub open spec fn spec_lit_fits(li: LiteralIntro, lt: LiteralType) -> bool {
    match (li, lt) {
        (LiteralIntro::Bool(_), LiteralType::Bool) => true,
        (LiteralIntro::Char(_), LiteralType::Char) => true,
        (LiteralIntro::Str(_), LiteralType::String) => true,
        (LiteralIntro::U8(_), LiteralType::U8) => true,
        (LiteralIntro::U16(_), LiteralType::U16) => true,
        (LiteralIntro::U32(_), LiteralType::U32) => true,
        (LiteralIntro::U64(_), LiteralType::U64) => true,
        (LiteralIntro::S8(_), LiteralType::S8) => true,
        (LiteralIntro::S16(_), LiteralType::S16) => true,
        (LiteralIntro::S32(_), LiteralType::S32) => true,
        (LiteralIntro::S64(_), LiteralType::S64) => true,
        _ => false,
    }
}

fn lit_fits(li: &LiteralIntro, lt: &LiteralType) -> (r: bool)
    ensures
        r == spec_lit_fits(*li, *lt),
{
    match (li, lt) {
        (LiteralIntro::Bool(_), LiteralType::Bool) => true,
        (LiteralIntro::Char(_), LiteralType::Char) => true,
        (LiteralIntro::Str(_), LiteralType::String) => true,
        (LiteralIntro::U8(_), LiteralType::U8) => true,
        (LiteralIntro::U16(_), LiteralType::U16) => true,
        (LiteralIntro::U32(_), LiteralType::U32) => true,
        (LiteralIntro::U64(_), LiteralType::U64) => true,
        (LiteralIntro::S8(_), LiteralType::S8) => true,
        (LiteralIntro::S16(_), LiteralType::S16) => true,
        (LiteralIntro::S32(_), LiteralType::S32) => true,
        (LiteralIntro::S64(_), LiteralType::S64) => true,
        _ => false,
    }
}

/// Expect `ty1` to be a subtype of `ty2` in the current context, deferring
/// to the unifier.
pub fn check_subtype(
    context: &Context,
    metas: &mut MetaStore,
    span: Span,
    ty1: &Rc<Value>,
    ty2: &Rc<Value>,
    fuel: u64,
) -> (r: Result<(), TypeError>)
    ensures
        store_extends(final(metas).entries@, old(metas).entries@),
        final(metas).entries@.len() == old(metas).entries@.len(),
        fuel > 0 ==> (**ty1 matches Value::Universe(a) ==> (**ty2 matches Value::Universe(b) ==> (
        r is Ok <==> a <= b))),
{
    crate::unify::unify_values(&context.prims, metas, &context.values, span, ty1, ty2, fuel)
}

/// Check a raw term against an expected type, producing a core term.
#[verifier::loop_isolation(false)]
pub fn check(
    context: &Context,
    metas: &mut MetaStore,
    raw: &RawTerm,
    expected_ty: &Rc<Value>,
    fuel: u64,
) -> (r: Result<Rc<Term>, TypeError>)
    requires
        context.wf(),
    ensures
        store_extends(final(metas).entries@, old(metas).entries@),
        final(metas).entries@.len() == old(metas).entries@.len(),
        fuel > 0 ==> (*raw matches RawTerm::Universe(l, s) ==> (**expected_ty
            matches Value::Universe(l2) ==> (if l < l2 {
            r matches Ok(t) && *t == Term::Universe(l)
        } else {
            r matches Err(e) && e == (TypeError::ExpectedUniverse {
                span: s,
                over: Some(l),
                found: *expected_ty,
            })
        }))),
        fuel > 0 ==> (*raw matches RawTerm::FunIntro(x, b, s) ==> (**expected_ty
            matches Value::Universe(l2) ==> (r matches Err(e) && e == (TypeError::ExpectedFunType {
                span: s,
                found: *expected_ty,
            })))),
        fuel > 0 ==> (*raw matches RawTerm::FunIntro(x, b, s) ==> (**expected_ty
            matches Value::FunType(mode, p, c) ==> (r matches Ok(t) ==> (*t
            matches Term::FunIntro(m2, b2) && m2 == mode)))),
        fuel > 0 ==> (*raw matches RawTerm::Let(x, d, b, s) ==> (r matches Ok(t) ==> (*t)
            is Let)),
        fuel > 0 ==> (*raw matches RawTerm::FunIntro(x, b, s) ==> ((is_forced_value(
            old(metas).entries@,
            **expected_ty,
        ) && !(**expected_ty is FunType)) ==> (r matches Err(e) && e == (
        TypeError::ExpectedFunType { span: s, found: *expected_ty }) && final(metas).entries@
            == old(metas).entries@))),
    decreases fuel,
{
    if fuel == 0 {
        return Err(TypeError::OutOfFuel);
    }
    let f = fuel - 1;
    match raw {
        RawTerm::Let(x, def, body, _s) => {
            let (def_t, def_ty) = synth(context, metas, def, f)?;
            let def_v = crate::nbe::eval(
                &context.prims,
                metas,
                &context.values,
                def.span(),
                &def_t,
                f,
            )?;
            let mut ctx2 = context.dup();
            ctx2.add_defn(x.clone(), def_v, def_ty);
            let body_t = check(&ctx2, metas, body, expected_ty, f)?;
            Ok(Rc::new(Term::Let(def_t, body_t)))
        },
        RawTerm::FunType(_, _, _, s) => {
            let expected = crate::nbe::force(&context.prims, metas, *s, expected_ty, f)?;
            match &*expected {
                Value::Universe(_) => check_ty(context, metas, raw, f),
                _ => Err(
                    TypeError::ExpectedUniverse { span: *s, over: None, found: rc_dup(&expected) },
                ),
            }
        },
        RawTerm::PairType(_, _, _, s) => {
            let expected = crate::nbe::force(&context.prims, metas, *s, expected_ty, f)?;
            match &*expected {
                Value::Universe(_) => check_ty(context, metas, raw, f),
                _ => Err(
                    TypeError::ExpectedUniverse { span: *s, over: None, found: rc_dup(&expected) },
                ),
            }
        },
        RawTerm::FunIntro(x, body, s) => {
            let expected = crate::nbe::force(&context.prims, metas, *s, expected_ty, f)?;
            match &*expected {
                Value::FunType(mode, param_ty, body_closure) => {
                    let probe = Value::var(context.size());
                    let body_ty = crate::nbe::app_closure(
                        &context.prims,
                        metas,
                        *s,
                        body_closure,
                        probe,
                        f,
                    )?;
                    let mut ctx2 = context.dup();
                    ctx2.add_param(x.clone(), rc_dup(param_ty));
                    let body_t = check(&ctx2, metas, body, &body_ty, f)?;
                    Ok(Rc::new(Term::FunIntro(dup_app_mode(mode), body_t)))
                },
                _ => Err(TypeError::ExpectedFunType { span: *s, found: rc_dup(&expected) }),
            }
        },
        RawTerm::PairIntro(fst, snd, s) => {
            let expected = crate::nbe::force(&context.prims, metas, *s, expected_ty, f)?;
            match &*expected {
                Value::RecordTypeExtend(_, label1, fst_ty, rest_closure) => {
                    let fst_label: String = "fst".to_owned();
                    let snd_label: String = "snd".to_owned();
                    if !(*label1 == fst_label) {
                        return Err(
                            TypeError::ExpectedPairType { span: *s, found: rc_dup(&expected) },
                        );
                    }
                    let fst_t = check(context, metas, fst, fst_ty, f)?;
                    let fst_v = crate::nbe::eval(
                        &context.prims,
                        metas,
                        &context.values,
                        fst.span(),
                        &fst_t,
                        f,
                    )?;
                    let rest = crate::nbe::app_closure(
                        &context.prims,
                        metas,
                        *s,
                        rest_closure,
                        fst_v,
                        f,
                    )?;
                    let rest_forced = crate::nbe::force(&context.prims, metas, *s, &rest, f)?;
                    match &*rest_forced {
                        Value::RecordTypeExtend(_, label2, snd_ty, _) => {
                            if !(*label2 == snd_label) {
                                return Err(
                                    TypeError::ExpectedPairType {
                                        span: *s,
                                        found: rc_dup(&expected),
                                    },
                                );
                            }
                            let snd_t = check(context, metas, snd, snd_ty, f)?;
                            let mut fields: Vec<(String, Rc<Term>)> = Vec::new();
                            fields.push((fst_label, fst_t));
                            fields.push((snd_label, snd_t));
                            Ok(Rc::new(Term::RecordIntro(fields)))
                        },
                        _ => Err(TypeError::ExpectedPairType { span: *s, found: rc_dup(&expected) }),
                    }
                },
                _ => Err(TypeError::ExpectedPairType { span: *s, found: rc_dup(&expected) }),
            }
        },
        RawTerm::LiteralIntro(li, s) => {
            let expected = crate::nbe::force(&context.prims, metas, *s, expected_ty, f)?;
            match &*expected {
                Value::LiteralType(lt) => {
                    if lit_fits(li, lt) {
                        Ok(Rc::new(Term::LiteralIntro(dup_lit_intro(li))))
                    } else {
                        Err(TypeError::NotEqual { span: *s })
                    }
                },
                _ => {
                    let (t, ty) = synth(context, metas, raw, f)?;
                    check_subtype(context, metas, *s, &ty, expected_ty, f)?;
                    Ok(t)
                },
            }
        },
        RawTerm::Universe(l, s) => {
            let expected = crate::nbe::force(&context.prims, metas, *s, expected_ty, f)?;
            match &*expected {
                Value::Universe(l2) => {
                    if *l < *l2 {
                        Ok(Rc::new(Term::Universe(*l)))
                    } else {
                        Err(
                            TypeError::ExpectedUniverse {
                                span: *s,
                                over: Some(*l),
                                found: rc_dup(&expected),
                            },
                        )
                    }
                },
                _ => Err(
                    TypeError::ExpectedUniverse {
                        span: *s,
                        over: Some(*l),
                        found: rc_dup(&expected),
                    },
                ),
            }
        },
        _ => {
            let span = raw.span();
            let (t, ty) = synth(context, metas, raw, f)?;
            check_subtype(context, metas, span, &ty, expected_ty, f)?;
            Ok(t)
        },
    }
}

/// Synthesize the type of a raw term, producing the core term and the type
/// value.  A bare abstraction, pair, type former or universe has no
/// synthesizing rule and is ambiguous here.
#[verifier::loop_isolation(false)]
pub fn synth(context: &Context, metas: &mut MetaStore, raw: &RawTerm, fuel: u64) -> (r: Result<
    (Rc<Term>, Rc<Value>),
    TypeError,
>)
    requires
        context.wf(),
    ensures
        store_extends(final(metas).entries@, old(metas).entries@),
        final(metas).entries@.len() == old(metas).entries@.len(),
        fuel > 0 ==> (*raw matches RawTerm::Var(name, s) ==> (if name_map_entries(
            context.names_to_levels,
        ).contains_key(name@) {
            r matches Ok(p) && *p.0 == Term::Var(
                (env_entries(context.values).len() - 1 - name_map_entries(
                    context.names_to_levels,
                )[name@]) as usize,
            ) && *p.1 == env_entries(context.tys)[name_map_entries(context.names_to_levels)[name@] as int]
        } else {
            r matches Err(e) && e == (TypeError::UnboundVariable { span: s, name })
        })),
        fuel > 0 ==> (*raw matches RawTerm::FunIntro(x, b, s) ==> (r matches Err(e) && e == (
        TypeError::AmbiguousTerm { span: s }))),
        fuel > 0 ==> (*raw matches RawTerm::Universe(l, s) ==> (r matches Err(e) && e == (
        TypeError::AmbiguousTerm { span: s }))),
        fuel > 0 ==> (*raw matches RawTerm::FunType(x, a, b, s) ==> (r matches Err(e) && e == (
        TypeError::AmbiguousTerm { span: s }))),
        fuel > 0 ==> (*raw matches RawTerm::PairType(x, a, b, s) ==> (r matches Err(e) && e == (
        TypeError::AmbiguousTerm { span: s }))),
        fuel > 0 ==> (*raw matches RawTerm::PairIntro(a, b, s) ==> (r matches Err(e) && e == (
        TypeError::AmbiguousTerm { span: s }))),
        fuel > 0 ==> (*raw matches RawTerm::FunApp(g, a, s) ==> (r matches Ok(p) ==> (*p.0
            matches Term::FunElim(g2, m, a2) && m == AppMode::Explicit))),
        fuel > 0 ==> (*raw matches RawTerm::LiteralIntro(li, s) ==> (if li is Bool {
            r matches Ok(p) && (*p.0 == Term::LiteralIntro(li) && *p.1 == Value::LiteralType(
                LiteralType::Bool,
            ))
        } else if li is Str {
            r matches Ok(p) && (*p.0 == Term::LiteralIntro(li) && *p.1 == Value::LiteralType(
                LiteralType::String,
            ))
        } else if li is Char {
            r matches Ok(p) && (*p.0 == Term::LiteralIntro(li) && *p.1 == Value::LiteralType(
                LiteralType::Char,
            ))
        } else {
            r matches Err(e) && e == (TypeError::AmbiguousTerm { span: s })
        })),
        fuel > 0 ==> (*raw matches RawTerm::Let(x, d, b, s) ==> (r matches Ok(p) ==> *p.0
            is Let)),
        fuel > 0 ==> ((((*raw) is Var) || ((*raw) is FunIntro) || ((*raw) is FunType) || ((
        *raw) is PairType) || ((*raw) is PairIntro) || ((*raw) is Universe) || ((
        *raw) is LiteralIntro)) ==> final(metas).entries@ == old(metas).entries@),
        fuel > 1 ==> (*raw matches RawTerm::FunApp(g, a, s) ==> ((*g) matches RawTerm::Var(
            name,
            s2,
        ) ==> ((name_map_entries(context.names_to_levels).contains_key(name@) && is_forced_value(
            old(metas).entries@,
            env_entries(context.tys)[name_map_entries(context.names_to_levels)[name@] as int],
        ) && !(env_entries(context.tys)[name_map_entries(context.names_to_levels)[name@] as int]
            is FunType)) ==> (r matches Err(e) && (e matches TypeError::ExpectedFunType {
            span: es,
            found,
        } && es == s && *found == env_entries(
            context.tys,
        )[name_map_entries(context.names_to_levels)[name@] as int]))))),
        fuel > 1 ==> (*raw matches RawTerm::PairFst(p, s) ==> ((*p) matches RawTerm::Var(name, s2)
            ==> ((name_map_entries(context.names_to_levels).contains_key(name@)
            && is_forced_value(
            old(metas).entries@,
            env_entries(context.tys)[name_map_entries(context.names_to_levels)[name@] as int],
        ) && !(env_entries(context.tys)[name_map_entries(context.names_to_levels)[name@] as int]
            is RecordTypeExtend)) ==> (r matches Err(e) && (e
            matches TypeError::ExpectedPairType { span: es, found } && es == s && *found
            == env_entries(
            context.tys,
        )[name_map_entries(context.names_to_levels)[name@] as int]))))),
    decreases fuel,
{
    if fuel == 0 {
        return Err(TypeError::OutOfFuel);
    }
    let f = fuel - 1;
    match raw {
        RawTerm::Var(name, s) => match context.lookup_binder(name) {
            Some((index, ty)) => Ok((Term::var(index), ty)),
            None => Err(TypeError::UnboundVariable { span: *s, name: name.clone() }),
        },
        RawTerm::Let(x, def, body, _s) => {
            let (def_t, def_ty) = synth(context, metas, def, f)?;
            let def_v = crate::nbe::eval(
                &context.prims,
                metas,
                &context.values,
                def.span(),
                &def_t,
                f,
            )?;
            let mut ctx2 = context.dup();
            ctx2.add_defn(x.clone(), def_v, def_ty);
            let (body_t, body_ty) = synth(&ctx2, metas, body, f)?;
            Ok((Rc::new(Term::Let(def_t, body_t)), body_ty))
        },
        RawTerm::Ann(term, ty_raw, _s) => {
            let ty_t = check_ty(context, metas, ty_raw, f)?;
            let ty_v = crate::nbe::eval(
                &context.prims,
                metas,
                &context.values,
                ty_raw.span(),
                &ty_t,
                f,
            )?;
            let term_t = check(context, metas, term, &ty_v, f)?;
            Ok((term_t, ty_v))
        },
        RawTerm::FunApp(fun, arg, s) => {
            let (fun_t, fun_ty) = synth(context, metas, fun, f)?;
            let fun_ty_forced = crate::nbe::force(&context.prims, metas, *s, &fun_ty, f)?;
            match &*fun_ty_forced {
                Value::FunType(mode, param_ty, body_closure) => {
                    match mode {
                        AppMode::Explicit => {},
                        AppMode::Implicit(_) => {
                            return Err(
                                TypeError::ExpectedFunType {
                                    span: *s,
                                    found: rc_dup(&fun_ty_forced),
                                },
                            );
                        },
                    }
                    let arg_t = check(context, metas, arg, param_ty, f)?;
                    let arg_v = crate::nbe::eval(
                        &context.prims,
                        metas,
                        &context.values,
                        arg.span(),
                        &arg_t,
                        f,
                    )?;
                    let result_ty = crate::nbe::app_closure(
                        &context.prims,
                        metas,
                        *s,
                        body_closure,
                        arg_v,
                        f,
                    )?;
                    Ok((Rc::new(Term::FunElim(fun_t, AppMode::Explicit, arg_t)), result_ty))
                },
                _ => Err(TypeError::ExpectedFunType { span: *s, found: rc_dup(&fun_ty_forced) }),
            }
        },
        RawTerm::PairFst(pair, s) => {
            let (pair_t, pair_ty) = synth(context, metas, pair, f)?;
            let pair_ty_forced = crate::nbe::force(&context.prims, metas, *s, &pair_ty, f)?;
            match &*pair_ty_forced {
                Value::RecordTypeExtend(_, label, fst_ty, _) => {
                    let fst_label: String = "fst".to_owned();
                    if *label == fst_label {
                        Ok((Rc::new(Term::RecordElim(pair_t, fst_label)), rc_dup(fst_ty)))
                    } else {
                        Err(
                            TypeError::ExpectedPairType {
                                span: *s,
                                found: rc_dup(&pair_ty_forced),
                            },
                        )
                    }
                },
                _ => Err(TypeError::ExpectedPairType { span: *s, found: rc_dup(&pair_ty_forced) }),
            }
        },
        RawTerm::PairSnd(pair, s) => {
            let (pair_t, pair_ty) = synth(context, metas, pair, f)?;
            let pair_ty_forced = crate::nbe::force(&context.prims, metas, *s, &pair_ty, f)?;
            match &*pair_ty_forced {
                Value::RecordTypeExtend(_, label, _fst_ty, rest_closure) => {
                    let fst_label: String = "fst".to_owned();
                    let snd_label: String = "snd".to_owned();
                    if !(*label == fst_label) {
                        return Err(
                            TypeError::ExpectedPairType {
                                span: *s,
                                found: rc_dup(&pair_ty_forced),
                            },
                        );
                    }
                    let pair_v = crate::nbe::eval(
                        &context.prims,
                        metas,
                        &context.values,
                        pair.span(),
                        &pair_t,
                        f,
                    )?;
                    let fst_v = crate::nbe::eval_record_elim(*s, pair_v, &fst_label)?;
                    let rest = crate::nbe::app_closure(
                        &context.prims,
                        metas,
                        *s,
                        rest_closure,
                        fst_v,
                        f,
                    )?;
                    let rest_forced = crate::nbe::force(&context.prims, metas, *s, &rest, f)?;
                    match &*rest_forced {
                        Value::RecordTypeExtend(_, label2, snd_ty, _) => {
                            if *label2 == snd_label {
                                Ok((Rc::new(Term::RecordElim(pair_t, snd_label)), rc_dup(snd_ty)))
                            } else {
                                Err(
                                    TypeError::ExpectedPairType {
                                        span: *s,
                                        found: rc_dup(&rest_forced),
                                    },
                                )
                            }
                        },
                        _ => Err(
                            TypeError::ExpectedPairType { span: *s, found: rc_dup(&rest_forced) },
                        ),
                    }
                },
                _ => Err(TypeError::ExpectedPairType { span: *s, found: rc_dup(&pair_ty_forced) }),
            }
        },
        RawTerm::LiteralIntro(li, s) => match li {
            LiteralIntro::Bool(_) => Ok(
                (
                    Rc::new(Term::LiteralIntro(dup_lit_intro(li))),
                    Value::literal_ty(LiteralType::Bool),
                ),
            ),
            LiteralIntro::Str(_) => Ok(
                (
                    Rc::new(Term::LiteralIntro(dup_lit_intro(li))),
                    Value::literal_ty(LiteralType::String),
                ),
            ),
            LiteralIntro::Char(_) => Ok(
                (
                    Rc::new(Term::LiteralIntro(dup_lit_intro(li))),
                    Value::literal_ty(LiteralType::Char),
                ),
            ),
            _ => Err(TypeError::AmbiguousTerm { span: *s }),
        },
        RawTerm::FunIntro(_, _, s) => Err(TypeError::AmbiguousTerm { span: *s }),
        RawTerm::FunType(_, _, _, s) => Err(TypeError::AmbiguousTerm { span: *s }),
        RawTerm::PairType(_, _, _, s) => Err(TypeError::AmbiguousTerm { span: *s }),
        RawTerm::PairIntro(_, _, s) => Err(TypeError::AmbiguousTerm { span: *s }),
        RawTerm::Universe(_, s) => Err(TypeError::AmbiguousTerm { span: *s }),
    }
}

/// Check that a raw term is a type: a universe of unspecified level.
#[verifier::loop_isolation(false)]
pub fn check_ty(context: &Context, metas: &mut MetaStore, raw: &RawTerm, fuel: u64) -> (r: Result<
    Rc<Term>,
    TypeError,
>)
    requires
        context.wf(),
    ensures
        store_extends(final(metas).entries@, old(metas).entries@),
        final(metas).entries@.len() == old(metas).entries@.len(),
        fuel > 0 ==> (*raw matches RawTerm::Universe(l, s) ==> (r matches Ok(t) && *t
            == Term::Universe(l))),
        fuel > 0 ==> (*raw matches RawTerm::PairType(x, a, b, s) ==> (r matches Ok(t) ==> (*t
            matches Term::RecordType(fields) && fields@.len() == 2 && fields@[0].0@ == "fst"@
            && fields@[1].0@ == "snd"@))),
        fuel > 1 ==> (*raw matches RawTerm::Var(name, s) ==> ((name_map_entries(
            context.names_to_levels,
        ).contains_key(name@) && is_forced_value(
            old(metas).entries@,
            env_entries(context.tys)[name_map_entries(context.names_to_levels)[name@] as int],
        )) ==> (if env_entries(context.tys)[name_map_entries(context.names_to_levels)[name@] as int]
            is Universe {
            r matches Ok(t) && *t == Term::Var(
                (env_entries(context.values).len() - 1 - name_map_entries(
                    context.names_to_levels,
                )[name@]) as usize,
            )
        } else {
            r matches Err(e) && (e matches TypeError::ExpectedUniverse { span: es, over, found }
                && es == s && over is None && *found == env_entries(
                context.tys,
            )[name_map_entries(context.names_to_levels)[name@] as int])
        }))),
        fuel > 0 ==> (*raw matches RawTerm::FunType(x, a, b, s) ==> (r matches Ok(t) ==> (*t
            matches Term::FunType(m, p, q) && m == AppMode::Explicit))),
    decreases fuel,
{
    if fuel == 0 {
        return Err(TypeError::OutOfFuel);
    }
    let f = fuel - 1;
    match raw {
        RawTerm::Let(x, def, body, _s) => {
            let (def_t, def_ty) = synth(context, metas, def, f)?;
            let def_v = crate::nbe::eval(
                &context.prims,
                metas,
                &context.values,
                def.span(),
                &def_t,
                f,
            )?;
            let mut ctx2 = context.dup();
            ctx2.add_defn(x.clone(), def_v, def_ty);
            let body_t = check_ty(&ctx2, metas, body, f)?;
            Ok(Rc::new(Term::Let(def_t, body_t)))
        },
        RawTerm::FunType(x, param_ty, body_ty, _s) => {
            let param_t = check_ty(context, metas, param_ty, f)?;
            let param_v = crate::nbe::eval(
                &context.prims,
                metas,
                &context.values,
                param_ty.span(),
                &param_t,
                f,
            )?;
            let mut ctx2 = context.dup();
            match x {
                Some(name) => {
                    ctx2.add_param(name.clone(), param_v);
                },
                None => {
                    ctx2.add_fresh_param(param_v);
                },
            }
            let body_t = check_ty(&ctx2, metas, body_ty, f)?;
            Ok(Rc::new(Term::FunType(AppMode::Explicit, param_t, body_t)))
        },
        RawTerm::PairType(x, fst_ty, snd_ty, _s) => {
            let fst_t = check_ty(context, metas, fst_ty, f)?;
            let fst_v = crate::nbe::eval(
                &context.prims,
                metas,
                &context.values,
                fst_ty.span(),
                &fst_t,
                f,
            )?;
            let mut ctx2 = context.dup();
            match x {
                Some(name) => {
                    ctx2.add_param(name.clone(), fst_v);
                },
                None => {
                    ctx2.add_fresh_param(fst_v);
                },
            }
            let snd_t = check_ty(&ctx2, metas, snd_ty, f)?;
            let mut fields: Vec<(String, Option<String>, Rc<Term>)> = Vec::new();
            fields.push(("fst".to_owned(), crate::nbe::dup_opt_string(x), fst_t));
            fields.push(("snd".to_owned(), None, snd_t));
            Ok(Rc::new(Term::RecordType(fields)))
        },
        RawTerm::Universe(l, _s) => Ok(Rc::new(Term::Universe(*l))),
        _ => {
            let span = raw.span();
            let (t, ty) = synth(context, metas, raw, f)?;
            let ty_forced = crate::nbe::force(&context.prims, metas, span, &ty, f)?;
            match &*ty_forced {
                Value::Universe(_) => Ok(t),
                _ => Err(
                    TypeError::ExpectedUniverse { span, over: None, found: rc_dup(&ty_forced) },
                ),
            }
        },
    }
}

} // verus!
