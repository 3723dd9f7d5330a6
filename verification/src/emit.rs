//! Diagnostics as the host's reporting facility will see them: an absolute
//! source range, a message, an optional label, and optionally one
//! machine-applicable replacement of the literal's payload.

use vstd::prelude::*;
use vstd::string::StringExecFns;

use crate::literal::SourceLiteral;
use crate::outcome::ViolationModel;
use crate::project::{kept, project_range};

verus! {

/// Mathematical image of a suggested edit.
pub ghost struct SuggestionModel {
    pub start: u32,
    pub end: u32,
    pub replacement: Seq<u8>,
}

/// Mathematical image of one diagnostic.
pub ghost struct DiagnosticModel {
    pub start: u32,
    pub end: u32,
    pub message: Seq<char>,
    pub label: Option<Seq<char>>,
    pub suggestion: Option<SuggestionModel>,
}

/// A machine-applicable edit: replace the bytes of the half-open source
/// range `[start, end)` with `replacement`.
#[derive(Debug, PartialEq, Eq)]
pub struct Suggestion {
    pub start: u32,
    pub end: u32,
    pub replacement: Vec<u8>,
}

impl View for Suggestion {
    type V = SuggestionModel;

    open spec fn view(&self) -> SuggestionModel {
        SuggestionModel { start: self.start, end: self.end, replacement: self.replacement@ }
    }
}

/// One emitted diagnostic over the half-open absolute source range
/// `[start, end)`.
#[derive(Debug, PartialEq, Eq)]
pub struct Diagnostic {
    pub start: u32,
    pub end: u32,
    pub message: String,
    pub label: Option<String>,
    pub suggestion: Option<Suggestion>,
}

impl View for Diagnostic {
    type V = DiagnosticModel;

    open spec fn view(&self) -> DiagnosticModel {
        DiagnosticModel {
            start: self.start,
            end: self.end,
            message: self.message@,
            label: match self.label {
                Some(l) => Some(l@),
                None => None,
            },
            suggestion: match self.suggestion {
                Some(s) => Some(s@),
                None => None,
            },
        }
    }
}

/// The image of a sequence of diagnostics.
pub open spec fn diagnostic_models(ds: Seq<Diagnostic>) -> Seq<DiagnosticModel> {
    ds.map_values(|d: Diagnostic| d@)
}

/// The rule code shown in a message, or the placeholder marker when the
/// linter attributed the finding to no rule.
pub open spec fn code_or_placeholder(code: Option<Seq<char>>) -> Seq<char> {
    match code {
        Some(c) => c,
        None => "????"@,
    }
}

/// The message of a finding's diagnostic: `[{code}]: {description}`.
pub open spec fn message_model(code: Option<Seq<char>>, desc: Seq<char>) -> Seq<char> {
    "["@ + code_or_placeholder(code) + "]: "@ + desc
}

/// Renders a finding's message.
pub fn render_message(code: &Option<String>, description: &String) -> (r: String)
    ensures
        r@ == message_model(
            match *code {
                Some(c) => Some(c@),
                None => None,
            },
            description@,
        ),
{
    let mut r = String::from_str("[");
    match code {
        Some(c) => r.append(c.as_str()),
        None => r.append("????"),
    }
    r.append("]: ");
    r.append(description.as_str());
    proof {
        assert(r@ =~= message_model(
            match *code {
                Some(c) => Some(c@),
                None => None,
            },
            description@,
        ));
    }
    r
}

/// The diagnostic for one kept finding: the projected range, the rendered
/// message, and a label repeating the description at the same range.
pub open spec fn violation_diag_model(content_start: u32, v: ViolationModel) -> DiagnosticModel {
    DiagnosticModel {
        start: (content_start + v.start) as u32,
        end: (content_start + v.end) as u32,
        message: message_model(v.code, v.description),
        label: Some(v.description),
        suggestion: None,
    }
}

/// The fix diagnostic: anchored at the literal's content span, carrying one
/// machine-applicable replacement of the whole payload.
pub open spec fn fix_diag_model(lit: SourceLiteral, fixed: Seq<u8>) -> DiagnosticModel {
    DiagnosticModel {
        start: lit.content_start() as u32,
        end: lit.content_end() as u32,
        message: "SQL query contains violations"@,
        label: None,
        suggestion: Some(
            SuggestionModel {
                start: lit.content_start() as u32,
                end: lit.content_end() as u32,
                replacement: fixed,
            },
        ),
    }
}

/// The diagnostic for a linter failure: anchored at the entire literal's
/// span, its message embedding the underlying error text.
pub open spec fn failure_diag_model(lit: SourceLiteral, err: Seq<char>) -> DiagnosticModel {
    DiagnosticModel {
        start: lit.lo,
        end: lit.hi,
        message: "SQL linter failed: "@ + err,
        label: None,
        suggestion: None,
    }
}

/// Projects one finding and, when its range is kept, builds its diagnostic.
pub fn emit_violation(content_start: u32, text_len: usize, start: usize, end: usize, description:
    &String, code: &Option<String>, warning: bool) -> (r: Option<Diagnostic>)
    ensures
        ({
            let v = ViolationModel {
                start,
                end,
                description: description@,
                code: match *code {
                    Some(c) => Some(c@),
                    None => None,
                },
                warning,
            };
            match r {
                Some(d) => kept(content_start, text_len as nat, v) && d@ == violation_diag_model(
                    content_start,
                    v,
                ),
                None => !kept(content_start, text_len as nat, v),
            }
        }),
{
    match project_range(content_start, text_len, start, end) {
        Some(abs) => {
            let message = render_message(code, description);
            Some(
                Diagnostic {
                    start: abs.0,
                    end: abs.1,
                    message,
                    label: Some(description.clone()),
                    suggestion: None,
                },
            )
        },
        None => None,
    }
}

/// A kept finding with relative range `[a, b)` inside a text whose content
/// starts at absolute offset `c` is reported at exactly `[c + a, c + b)`,
/// and that range is again non-inverted and in range.
pub proof fn lemma_projected_diag_range(content_start: u32, text_len: nat, v: ViolationModel)
    requires
        kept(content_start, text_len, v),
    ensures
        violation_diag_model(content_start, v).start == content_start + v.start,
        violation_diag_model(content_start, v).end == content_start + v.end,
        violation_diag_model(content_start, v).start <= violation_diag_model(content_start, v).end,
{
}

/// Builds the fix diagnostic for a literal.
pub fn emit_fix(lit: &SourceLiteral, fixed: Vec<u8>) -> (r: Diagnostic)
    requires
        lit.well_formed(),
    ensures
        r@ == fix_diag_model(*lit, fixed@),
{
    let span = lit.content_span();
    Diagnostic {
        start: span.0,
        end: span.1,
        message: String::from_str("SQL query contains violations"),
        label: None,
        suggestion: Some(Suggestion { start: span.0, end: span.1, replacement: fixed }),
    }
}

/// Builds the failure diagnostic for a literal.
pub fn emit_failure(lit: &SourceLiteral, err: &String) -> (r: Diagnostic)
    ensures
        r@ == failure_diag_model(*lit, err@),
{
    let mut message = String::from_str("SQL linter failed: ");
    message.append(err.as_str());
    Diagnostic { start: lit.lo, end: lit.hi, message, label: None, suggestion: None }
}

} // verus!
