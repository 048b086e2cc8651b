//! The resolved surface syntax that elaboration consumes.  Every node
//! carries the source span that diagnostics report.

use vstd::prelude::*;
use std::rc::Rc;
use crate::syntax::{LiteralIntro, Span};

verus! {

/// Raw terms.  Binders carry user names; a dependent function or pair type
/// may leave its binder anonymous.
#[derive(Debug, PartialEq)]
pub enum RawTerm {
    /// A name to resolve.
    Var(String, Span),
    /// `let x = def in body`.
    Let(String, Rc<RawTerm>, Rc<RawTerm>, Span),
    /// A term with a type annotation.
    Ann(Rc<RawTerm>, Rc<RawTerm>, Span),
    /// A dependent function type.
    FunType(Option<String>, Rc<RawTerm>, Rc<RawTerm>, Span),
    /// A function abstraction.
    FunIntro(String, Rc<RawTerm>, Span),
    /// A function application.
    FunApp(Rc<RawTerm>, Rc<RawTerm>, Span),
    /// A dependent pair type.
    PairType(Option<String>, Rc<RawTerm>, Rc<RawTerm>, Span),
    /// A pair.
    PairIntro(Rc<RawTerm>, Rc<RawTerm>, Span),
    /// First projection.
    PairFst(Rc<RawTerm>, Span),
    /// Second projection.
    PairSnd(Rc<RawTerm>, Span),
    /// A literal value.
    LiteralIntro(LiteralIntro, Span),
    /// A universe at the given level.
    Universe(usize, Span),
}

impl RawTerm {
    /// The source span of this node.
    pub open spec fn spec_span(&self) -> Span {
        match *self {
            RawTerm::Var(_, s) => s,
            RawTerm::Let(_, _, _, s) => s,
            RawTerm::Ann(_, _, s) => s,
            RawTerm::FunType(_, _, _, s) => s,
            RawTerm::FunIntro(_, _, s) => s,
            RawTerm::FunApp(_, _, s) => s,
            RawTerm::PairType(_, _, _, s) => s,
            RawTerm::PairIntro(_, _, s) => s,
            RawTerm::PairFst(_, s) => s,
            RawTerm::PairSnd(_, s) => s,
            RawTerm::LiteralIntro(_, s) => s,
            RawTerm::Universe(_, s) => s,
        }
    }

    /// The source span of this node.
    pub fn span(&self) -> (r: Span)
        ensures
            r == self.spec_span(),
    {
        match self {
            RawTerm::Var(_, s) => *s,
            RawTerm::Let(_, _, _, s) => *s,
            RawTerm::Ann(_, _, s) => *s,
            RawTerm::FunType(_, _, _, s) => *s,
            RawTerm::FunIntro(_, _, s) => *s,
            RawTerm::FunApp(_, _, s) => *s,
            RawTerm::PairType(_, _, _, s) => *s,
            RawTerm::PairIntro(_, _, s) => *s,
            RawTerm::PairFst(_, s) => *s,
            RawTerm::PairSnd(_, s) => *s,
            RawTerm::LiteralIntro(_, s) => *s,
            RawTerm::Universe(_, s) => *s,
        }
    }
}

} // verus!
