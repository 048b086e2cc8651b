//! Elaboration core for a small Martin-Löf-style dependent type theory.
//!
//! The crate takes resolved surface syntax ([`raw::RawTerm`]) and produces
//! fully typed core terms ([`syntax::Term`]) together with solutions to the
//! metavariables introduced during type checking.  It provides bidirectional
//! type checking ([`elaborate`]), normalization by evaluation ([`nbe`]),
//! higher-order pattern unification with metavariable solving ([`unify`]),
//! and subtype checking for a cumulative universe hierarchy.

pub mod var;
pub mod syntax;
pub mod domain;
pub mod meta;
pub mod errors;
pub mod prim;
pub mod nbe;
pub mod unify;
pub mod context;
pub mod raw;
pub mod elaborate;
pub mod docs;
