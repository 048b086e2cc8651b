//! The core syntax: fully explicit terms produced by elaboration.

use vstd::prelude::*;
use std::rc::Rc;

verus! {

/// A source span, carried over from the surface syntax for diagnostics.
#[derive(Debug, Clone, Copy, PartialEq, Eq, Structural)]
pub struct Span {
    pub start: usize,
    pub end: usize,
}

impl Span {
    pub fn new(start: usize, end: usize) -> (r: Span)
        ensures
            r.start == start && r.end == end,
    {
        Span { start, end }
    }
}

/// How a function argument is passed: positionally, or bound to an implicit
/// parameter name.  Two modes agree when the variant and (for implicit
/// arguments) the name match.
#[derive(Debug, Clone, PartialEq)]
pub enum AppMode {
    Explicit,
    Implicit(String),
}

/// Whether two application modes agree, comparing implicit names by content.
pub open spec fn app_mode_agree(a: AppMode, b: AppMode) -> bool {
    match (a, b) {
        (AppMode::Explicit, AppMode::Explicit) => true,
        (AppMode::Implicit(x), AppMode::Implicit(y)) => x@ == y@,
        _ => false,
    }
}

pub fn app_mode_eq(a: &AppMode, b: &AppMode) -> (r: bool)
    ensures
        r == app_mode_agree(*a, *b),
{
    match (a, b) {
        (AppMode::Explicit, AppMode::Explicit) => true,
        (AppMode::Implicit(x), AppMode::Implicit(y)) => *x == *y,
        _ => false,
    }
}

pub fn dup_app_mode(a: &AppMode) -> (r: AppMode)
    ensures
        r == *a,
{
    match a {
        AppMode::Explicit => AppMode::Explicit,
        AppMode::Implicit(name) => AppMode::Implicit(name.clone()),
    }
}

/// The types of literals.  The floating point types are tags only: no
/// floating point value enters the verified core.
#[derive(Debug, Clone, Copy, PartialEq, Eq, Structural)]
pub enum LiteralType {
    String,
    Char,
    Bool,
    U8,
    U16,
    U32,
    U64,
    S8,
    S16,
    S32,
    S64,
    F32,
    F64,
}

pub fn lit_ty_eq(a: &LiteralType, b: &LiteralType) -> (r: bool)
    ensures
        r == (*a == *b),
{
    match (a, b) {
        (LiteralType::String, LiteralType::String) => true,
        (LiteralType::Char, LiteralType::Char) => true,
        (LiteralType::Bool, LiteralType::Bool) => true,
        (LiteralType::U8, LiteralType::U8) => true,
        (LiteralType::U16, LiteralType::U16) => true,
        (LiteralType::U32, LiteralType::U32) => true,
        (LiteralType::U64, LiteralType::U64) => true,
        (LiteralType::S8, LiteralType::S8) => true,
        (LiteralType::S16, LiteralType::S16) => true,
        (LiteralType::S32, LiteralType::S32) => true,
        (LiteralType::S64, LiteralType::S64) => true,
        (LiteralType::F32, LiteralType::F32) => true,
        (LiteralType::F64, LiteralType::F64) => true,
        _ => false,
    }
}

/// Literal values.  String payloads are compared by content.
#[derive(Debug, Clone, PartialEq)]
pub enum LiteralIntro {
    Bool(bool),
    Char(char),
    Str(String),
    U8(u8),
    U16(u16),
    U32(u32),
    U64(u64),
    S8(i8),
    S16(i16),
    S32(i32),
    S64(i64),
}

/// Alpha-equivalence of literal values: same variant, same payload, with
/// strings compared by content.
pub open spec fn lit_intro_alpha_eq(a: LiteralIntro, b: LiteralIntro) -> bool {
    match (a, b) {
        (LiteralIntro::Bool(x), LiteralIntro::Bool(y)) => x == y,
        (LiteralIntro::Char(x), LiteralIntro::Char(y)) => x == y,
        (LiteralIntro::Str(x), LiteralIntro::Str(y)) => x@ == y@,
        (LiteralIntro::U8(x), LiteralIntro::U8(y)) => x == y,
        (LiteralIntro::U16(x), LiteralIntro::U16(y)) => x == y,
        (LiteralIntro::U32(x), LiteralIntro::U32(y)) => x == y,
        (LiteralIntro::U64(x), LiteralIntro::U64(y)) => x == y,
        (LiteralIntro::S8(x), LiteralIntro::S8(y)) => x == y,
        (LiteralIntro::S16(x), LiteralIntro::S16(y)) => x == y,
        (LiteralIntro::S32(x), LiteralIntro::S32(y)) => x == y,
        (LiteralIntro::S64(x), LiteralIntro::S64(y)) => x == y,
        _ => false,
    }
}

pub fn lit_intro_eq(a: &LiteralIntro, b: &LiteralIntro) -> (r: bool)
    ensures
        r == lit_intro_alpha_eq(*a, *b),
{
    match (a, b) {
        (LiteralIntro::Bool(x), LiteralIntro::Bool(y)) => *x == *y,
        (LiteralIntro::Char(x), LiteralIntro::Char(y)) => *x == *y,
        (LiteralIntro::Str(x), LiteralIntro::Str(y)) => *x == *y,
        (LiteralIntro::U8(x), LiteralIntro::U8(y)) => *x == *y,
        (LiteralIntro::U16(x), LiteralIntro::U16(y)) => *x == *y,
        (LiteralIntro::U32(x), LiteralIntro::U32(y)) => *x == *y,
        (LiteralIntro::U64(x), LiteralIntro::U64(y)) => *x == *y,
        (LiteralIntro::S8(x), LiteralIntro::S8(y)) => *x == *y,
        (LiteralIntro::S16(x), LiteralIntro::S16(y)) => *x == *y,
        (LiteralIntro::S32(x), LiteralIntro::S32(y)) => *x == *y,
        (LiteralIntro::S64(x), LiteralIntro::S64(y)) => *x == *y,
        _ => false,
    }
}

pub fn dup_lit_intro(a: &LiteralIntro) -> (r: LiteralIntro)
    ensures
        r == *a,
{
    match a {
        LiteralIntro::Bool(x) => LiteralIntro::Bool(*x),
        LiteralIntro::Char(x) => LiteralIntro::Char(*x),
        LiteralIntro::Str(x) => LiteralIntro::Str(x.clone()),
        LiteralIntro::U8(x) => LiteralIntro::U8(*x),
        LiteralIntro::U16(x) => LiteralIntro::U16(*x),
        LiteralIntro::U32(x) => LiteralIntro::U32(*x),
        LiteralIntro::U64(x) => LiteralIntro::U64(*x),
        LiteralIntro::S8(x) => LiteralIntro::S8(*x),
        LiteralIntro::S16(x) => LiteralIntro::S16(*x),
        LiteralIntro::S32(x) => LiteralIntro::S32(*x),
        LiteralIntro::S64(x) => LiteralIntro::S64(*x),
    }
}

/// Core terms: the tagged, structurally immutable representation that
/// elaboration produces.  Variables use de Bruijn indices, so a term is
/// independent of the context it sits in.
#[derive(Debug, Clone, PartialEq)]
pub enum Term {
    /// A bound variable, as a de Bruijn index.
    Var(usize),
    /// An unresolved hole, solved lazily through the metavariable store.
    Meta(usize),
    /// A reference to a primitive.
    Prim(String),
    /// A type annotation, erased by evaluation.
    Ann(Rc<Term>, Rc<Term>),
    /// A let binding; the binder scopes over the second argument.
    Let(Rc<Term>, Rc<Term>),
    LiteralType(LiteralType),
    LiteralIntro(LiteralIntro),
    /// Eliminate a literal: a scrutinee, match clauses ordered by pattern,
    /// and a default clause.  Clause bodies live under no extra binder; the
    /// default clause binds the scrutinee.
    LiteralElim(Rc<Term>, Rc<Vec<(LiteralIntro, Rc<Term>)>>, Rc<Term>),
    /// A dependent function type; the parameter scopes over the body type.
    FunType(AppMode, Rc<Term>, Rc<Term>),
    /// A function abstraction; the parameter scopes over the body.
    FunIntro(AppMode, Rc<Term>),
    /// A function application.
    FunElim(Rc<Term>, AppMode, Rc<Term>),
    /// A dependent record type: ordered fields of label, binder name hint and
    /// field type, each field type scoping over the previous fields.
    RecordType(Vec<(String, Option<String>, Rc<Term>)>),
    /// A record value: ordered fields of label and term.
    RecordIntro(Vec<(String, Rc<Term>)>),
    /// A record projection.
    RecordElim(Rc<Term>, String),
    /// A universe at the given level.
    Universe(usize),
}

impl Term {
    /// A variable term for the given de Bruijn index.
    pub fn var(index: usize) -> (r: Rc<Term>)
        ensures
            r == Term::Var(index),
    {
        Rc::new(Term::Var(index))
    }
}

} // verus!
