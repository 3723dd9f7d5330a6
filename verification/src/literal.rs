//! String literals extracted from call sites: their quoting style and the
//! arithmetic locating the payload (content) bytes inside the literal's
//! source span.

use vstd::prelude::*;

verus! {

/// Quoting style of a string literal: a cooked literal is delimited by one
/// quote byte on each side; a raw literal by `r`, a fence of `n` repeats of
/// the fence character, and a quote on each side (`2 + n` bytes per side).
#[derive(Clone, Copy, PartialEq, Eq, Structural, Debug)]
pub enum LitStyle {
    Cooked,
    Raw(u8),
}

/// Width in bytes of the delimiter syntax on each side of the payload.
pub open spec fn prefix_width(style: LitStyle) -> int {
    match style {
        LitStyle::Cooked => 1,
        LitStyle::Raw(n) => 2 + n as int,
    }
}

/// A string literal found as a call argument: its decoded payload bytes
/// (escapes already resolved, as the embedded language will see them), the
/// literal's full byte span in source coordinates, and its quoting style.
pub struct SourceLiteral {
    /// Decoded payload bytes of the literal (escapes already resolved, as
    /// the embedded language will see them).
    pub text: Vec<u8>,
    /// Byte offset in source where the literal (including delimiters) starts.
    pub lo: u32,
    /// Byte offset in source just past the literal's last delimiter byte.
    pub hi: u32,
    /// Quoting style, which fixes the delimiter widths.
    pub style: LitStyle,
}

impl SourceLiteral {
    /// The span is wide enough to hold the delimiters of its style, so the
    /// content span is non-inverted and its bounds stay in range.
    pub open spec fn well_formed(self) -> bool {
        self.lo + 2 * prefix_width(self.style) <= self.hi
    }

    /// First byte of the payload, in source coordinates.
    pub open spec fn content_start(self) -> int {
        self.lo + prefix_width(self.style)
    }

    /// One past the last byte of the payload, in source coordinates.
    pub open spec fn content_end(self) -> int {
        self.hi - prefix_width(self.style)
    }

    /// Computes the payload's absolute byte range, excluding all delimiter
    /// syntax.
    pub fn content_span(&self) -> (r: (u32, u32))
        requires
            self.well_formed(),
        ensures
            r.0 == self.content_start(),
            r.1 == self.content_end(),
            r.0 <= r.1,
    {
        let width: u32 = match self.style {
            LitStyle::Cooked => 1,
            LitStyle::Raw(n) => 2 + n as u32,
        };
        (self.lo + width, self.hi - width)
    }
}

/// A cooked literal's payload sits one byte inside each end of its span.
pub proof fn lemma_cooked_content_bounds(lit: SourceLiteral)
    requires
        lit.style == LitStyle::Cooked,
    ensures
        lit.content_start() == lit.lo + 1,
        lit.content_end() == lit.hi - 1,
{
}

/// A raw literal with fence length `n` has its payload `2 + n` bytes inside
/// each end of its span.
pub proof fn lemma_raw_content_bounds(lit: SourceLiteral, n: u8)
    requires
        lit.style == LitStyle::Raw(n),
    ensures
        lit.content_start() == lit.lo + 2 + n,
        lit.content_end() == lit.hi - 2 - n,
{
}

} // verus!
