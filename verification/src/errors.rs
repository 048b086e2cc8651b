//! The error taxonomy of elaboration.
//!
//! Every error short-circuits the enclosing check, synthesis or unification
//! call; there is no local recovery.  The metavariable store is not rolled
//! back on error, so a caller should treat any error as terminal for the
//! declaration being checked.

use vstd::prelude::*;
use std::rc::Rc;
use crate::domain::Value;
use crate::syntax::Span;

verus! {

#[derive(Debug, PartialEq)]
pub enum TypeError {
    /// A name could not be resolved at its use site.
    UnboundVariable { span: Span, name: String },
    /// A form required a function type but the expected or synthesized type
    /// elaborated to a different value.
    ExpectedFunType { span: Span, found: Rc<Value> },
    /// A form required a dependent pair type.
    ExpectedPairType { span: Span, found: Rc<Value> },
    /// A form required a record type.
    ExpectedRecordType { span: Span, found: Rc<Value> },
    /// Checking a type-former yielded a non-universe; `over` is set when the
    /// offending term had already fixed its own level.
    ExpectedUniverse { span: Span, over: Option<usize>, found: Rc<Value> },
    /// A universe level constraint was violated: `found` is not a subtype
    /// level of `expected`.
    UniverseMismatch { span: Span, found: usize, expected: usize },
    /// Synthesis was required but the term has no synthesizing rule.
    AmbiguousTerm { span: Span },
    /// Two values would not unify.
    NotEqual { span: Span },
    /// A metavariable was applied to a spine that is not a pattern: some
    /// elimination is not a function application of a bare bound variable.
    SpineNotPattern { span: Span },
    /// A solution candidate mentions a variable that the metavariable's
    /// spine did not capture.
    ScopeError { span: Span, meta: usize },
    /// A solution candidate mentions the metavariable being solved.
    OccursCheck { span: Span, meta: usize },
    /// Eta conversion for records is out of scope, and is reported apart
    /// from plain disequality.
    UnsupportedRecordEta { span: Span },
    /// An entry of the metavariable store was still unsolved after checking.
    UnsolvedMeta { span: Span },
    /// Documentation appeared on both the declaration and the definition.
    AlreadyDocumented { name: String },
    /// An internal invariant was broken, such as eliminating a value of the
    /// wrong shape or unifying terms that the checker should have removed.
    Bug { span: Span },
    /// The evaluation budget ran out before the computation finished.  The
    /// budget is a machine limit: re-running with a larger one can only turn
    /// this error into another result, never change a result.
    OutOfFuel,
}

} // verus!
