//! Detection of inline configuration directives. The external linter
//! re-reads its own configuration from comment lines of the form
//! `-- sqruff:...` or `-- sqlfluff:...` inside the text it is given, and
//! its parser aborts on malformed directive values instead of returning an
//! error. Texts that could reach that parser are screened out here and
//! routed to the failure path instead of being handed to the linter.

use vstd::prelude::*;
use vstd::string::StrSliceExecFns;

verus! {

/// Whether `pat` occurs in `text` as a contiguous byte run starting at `i`.
pub open spec fn contains_bytes_at(text: Seq<u8>, pat: Seq<u8>, i: int) -> bool {
    &&& 0 <= i
    &&& i + pat.len() <= text.len()
    &&& forall|k: int| 0 <= k < pat.len() ==> text[i + k] == pat[k]
}

/// Whether `pat` occurs anywhere in `text` as a contiguous byte run.
pub open spec fn spec_contains_bytes(text: Seq<u8>, pat: Seq<u8>) -> bool {
    exists|i: int| contains_bytes_at(text, pat, i)
}

/// The bytes of `-- sqruff:`.
pub open spec fn sqruff_directive_marker() -> Seq<u8> {
    "-- sqruff:"@.map_values(|c: char| c as u8)
}

/// The bytes of `-- sqlfluff:`.
pub open spec fn sqlfluff_directive_marker() -> Seq<u8> {
    "-- sqlfluff:"@.map_values(|c: char| c as u8)
}

/// Whether the text holds either directive marker. The linter triggers its
/// inline-configuration parsing only for a line whose trimmed form starts
/// with a marker; a marker so placed is in particular a contiguous byte run
/// of the text, so a text without this property can never reach that
/// parser.
pub open spec fn spec_has_directive(text: Seq<u8>) -> bool {
    spec_contains_bytes(text, sqruff_directive_marker()) || spec_contains_bytes(
        text,
        sqlfluff_directive_marker(),
    )
}

/// Whether `pat` matches the bytes of `text` starting at `i`.
fn match_at(text: &Vec<u8>, pat: &Vec<u8>, i: usize) -> (r: bool)
    requires
        i + pat@.len() <= text@.len(),
    ensures
        r == contains_bytes_at(text@, pat@, i as int),
{
    let text_len = text.len();
    let mut k: usize = 0;
    while k < pat.len()
        invariant
            k <= pat.len(),
            i + pat@.len() <= text@.len(),
            text_len == text@.len(),
            forall|k0: int| 0 <= k0 < k ==> text@[i + k0] == pat@[k0],
        decreases pat.len() - k,
    {
        if text[i + k] != pat[k] {
            return false;
        }
        k += 1;
    }
    true
}

/// Naive byte-string search.
pub fn contains_bytes(text: &Vec<u8>, pat: &Vec<u8>) -> (r: bool)
    ensures
        r == spec_contains_bytes(text@, pat@),
{
    if pat.len() > text.len() {
        proof {
            assert(forall|i: int| !contains_bytes_at(text@, pat@, i));
        }
        return false;
    }
    if pat.len() == 0 {
        proof {
            assert(contains_bytes_at(text@, pat@, 0));
        }
        return true;
    }
    let last_start: usize = text.len() - pat.len();
    let mut i: usize = 0;
    while i <= last_start
        invariant
            i <= last_start + 1,
            last_start == text@.len() - pat@.len(),
            1 <= pat@.len() <= text@.len(),
            last_start <= usize::MAX - 1,
            forall|i0: int| 0 <= i0 < i ==> !contains_bytes_at(text@, pat@, i0),
        decreases last_start + 1 - i,
    {
        if match_at(text, pat, i) {
            return true;
        }
        i += 1;
    }
    proof {
        assert(forall|i0: int| i0 > last_start ==> !contains_bytes_at(text@, pat@, i0));
    }
    false
}

/// Builds the byte string of a pattern given as a string of one-byte
/// characters.
fn pattern_bytes(pat: &str) -> (r: Vec<u8>)
    ensures
        r@ == pat@.map_values(|c: char| c as u8),
{
    let mut r: Vec<u8> = Vec::new();
    let len = pat.unicode_len();
    let mut i: usize = 0;
    while i < len
        invariant
            i <= len,
            len == pat@.len(),
            r@ =~= pat@.take(i as int).map_values(|c: char| c as u8),
        decreases len - i,
    {
        let c = pat.get_char(i);
        r.push(c as u8);
        proof {
            assert(r@ =~= pat@.take(i + 1).map_values(|c: char| c as u8));
        }
        i += 1;
    }
    proof {
        assert(pat@.take(len as int) =~= pat@);
    }
    r
}

/// Whether the text holds an inline configuration directive marker.
pub fn has_inline_directive(text: &Vec<u8>) -> (r: bool)
    ensures
        r == spec_has_directive(text@),
{
    let sqruff_marker = pattern_bytes("-- sqruff:");
    let sqlfluff_marker = pattern_bytes("-- sqlfluff:");
    contains_bytes(text, &sqruff_marker) || contains_bytes(text, &sqlfluff_marker)
}

} // verus!
