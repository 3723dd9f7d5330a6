//! Call sites and the extraction of their first string-literal argument.

use vstd::prelude::*;

use crate::literal::SourceLiteral;

verus! {

/// The shape of a call: a plain function call, whose payload is its first
/// argument, or a method call, whose argument list starts with the receiver
/// and whose payload is the first argument after it.
#[derive(Clone, Copy, PartialEq, Eq, Structural, Debug)]
pub enum CallKind {
    Function,
    Method,
}

/// One argument of a call, as far as this pipeline reads it: a string
/// literal, or anything else (a variable, an integer, a nested call), which
/// makes the call site skippable.
pub enum CallArg {
    StrLit(SourceLiteral),
    Other,
}

/// A call expression: its resolved target identity, when the host could
/// resolve one, its shape, and its ordered argument list (for a method
/// call, the receiver first).
pub struct CallSite {
    pub target: Option<u64>,
    pub kind: CallKind,
    pub args: Vec<CallArg>,
}

/// Index of the payload argument for a call shape.
pub open spec fn payload_index(kind: CallKind) -> int {
    match kind {
        CallKind::Function => 0,
        CallKind::Method => 1,
    }
}

impl CallSite {
    /// The literal this call site offers for analysis, if its payload
    /// argument exists and is a string literal.
    pub open spec fn extracted(self) -> Option<SourceLiteral> {
        let i = payload_index(self.kind);
        if i < self.args@.len() {
            match self.args@[i] {
                CallArg::StrLit(lit) => Some(lit),
                CallArg::Other => None,
            }
        } else {
            None
        }
    }

    /// Every literal argument carries a span wide enough for its quoting
    /// style's delimiters.
    pub open spec fn well_formed(self) -> bool {
        forall|i: int|
            0 <= i < self.args@.len() ==> match #[trigger] self.args@[i] {
                CallArg::StrLit(lit) => lit.well_formed(),
                CallArg::Other => true,
            }
    }

    /// Locates the payload argument and hands back its literal; `None` when
    /// the argument is missing or is not a string literal, in which case
    /// the call site is skipped with no diagnostic.
    pub fn extract_literal(&self) -> (r: Option<&SourceLiteral>)
        ensures
            match r {
                Some(lit) => self.extracted() == Some(*lit),
                None => self.extracted() is None,
            },
    {
        let i: usize = match self.kind {
            CallKind::Function => 0,
            CallKind::Method => 1,
        };
        if i < self.args.len() {
            match &self.args[i] {
                CallArg::StrLit(lit) => Some(lit),
                CallArg::Other => None,
            }
        } else {
            None
        }
    }
}

} // verus!
