//! The linter's normalized outcome: an ordered list of findings over the
//! extracted text, and an optional whole-payload fix.

use vstd::prelude::*;

verus! {

/// Mathematical image of one finding.
pub ghost struct ViolationModel {
    /// Start of the finding's byte range, relative to the extracted text.
    pub start: usize,
    /// One past the end of the finding's byte range, relative to the
    /// extracted text.
    pub end: usize,
    /// Human-readable description.
    pub description: Seq<char>,
    /// Rule code, when the linter attributes the finding to a rule.
    pub code: Option<Seq<char>>,
    /// Whether the linter downgraded the finding to a warning.
    pub warning: bool,
}

/// One finding reported by the external linter: a half-open byte range
/// relative to the extracted text, a description, and an optional rule code.
#[derive(Debug, PartialEq, Eq)]
pub struct Violation {
    pub start: usize,
    pub end: usize,
    pub description: String,
    pub code: Option<String>,
    pub warning: bool,
}

impl View for Violation {
    type V = ViolationModel;

    open spec fn view(&self) -> ViolationModel {
        ViolationModel {
            start: self.start,
            end: self.end,
            description: self.description@,
            code: match self.code {
                Some(c) => Some(c@),
                None => None,
            },
            warning: self.warning,
        }
    }
}

impl Violation {
    /// Builds a finding from its plain parts.
    pub fn new(start: usize, end: usize, description: String, code: Option<String>, warning: bool)
        -> (r: Violation)
        ensures
            r@ == (ViolationModel {
                start,
                end,
                description: description@,
                code: match code {
                    Some(c) => Some(c@),
                    None => None,
                },
                warning,
            }),
    {
        Violation { start, end, description, code, warning }
    }
}

/// The image of a sequence of findings.
pub open spec fn violation_models(vs: Seq<Violation>) -> Seq<ViolationModel> {
    vs.map_values(|v: Violation| v@)
}

/// A successful linter run over one extracted text: the findings in the
/// order the linter returned them (no dedup), and an optional whole-payload
/// replacement (as bytes) produced in fix mode.
pub struct LintOutcome {
    pub violations: Vec<Violation>,
    pub fixed: Option<Vec<u8>>,
}

impl LintOutcome {
    /// The image of the optional fix.
    pub open spec fn fixed_model(self) -> Option<Seq<u8>> {
        match self.fixed {
            Some(f) => Some(f@),
            None => None,
        }
    }
}

/// Compares two byte strings for exact equality.
pub fn bytes_eq(a: &Vec<u8>, b: &Vec<u8>) -> (r: bool)
    ensures
        r == (a@ == b@),
{
    if a.len() != b.len() {
        proof {
            assert(a@ != b@);
        }
        return false;
    }
    let mut i: usize = 0;
    while i < a.len()
        invariant
            i <= a.len(),
            a@.len() == b@.len(),
            forall|j: int| 0 <= j < i ==> a@[j] == b@[j],
        decreases a.len() - i,
    {
        if a[i] != b[i] {
            return false;
        }
        i += 1;
    }
    proof {
        assert(a@ =~= b@);
    }
    true
}

/// Whether any finding is a real violation (not downgraded to a warning):
/// the condition under which a fix may be offered.
pub open spec fn spec_has_violations(vs: Seq<ViolationModel>) -> bool {
    exists|i: int| 0 <= i < vs.len() && !vs[i].warning
}

/// Computes whether any finding is a real violation.
pub fn has_violations(vs: &Vec<Violation>) -> (r: bool)
    ensures
        r == spec_has_violations(violation_models(vs@)),
{
    let mut i: usize = 0;
    while i < vs.len()
        invariant
            i <= vs.len(),
            forall|j: int| 0 <= j < i ==> violation_models(vs@)[j].warning,
        decreases vs.len() - i,
    {
        if !vs[i].warning {
            proof {
                assert(!violation_models(vs@)[i as int].warning);
            }
            return true;
        }
        i += 1;
    }
    false
}

} // verus!
