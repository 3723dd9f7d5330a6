//! The per-literal pipeline: project every finding, emit one diagnostic per
//! kept finding, then offer the whole-payload fix when it is owed; on a
//! linter failure, emit exactly one diagnostic at the full literal span.

use vstd::prelude::*;

use crate::emit::{
    diagnostic_models, emit_failure, emit_fix, emit_violation, failure_diag_model, fix_diag_model,
    violation_diag_model, Diagnostic, DiagnosticModel,
};
use crate::literal::SourceLiteral;
use crate::outcome::{
    bytes_eq, has_violations, spec_has_violations, violation_models, LintOutcome, ViolationModel,
};
use crate::project::kept;

verus! {

/// The diagnostics of a list of findings, in order: one per finding whose
/// range is kept; findings with out-of-range offsets contribute nothing.
pub open spec fn violation_diags_model(content_start: u32, text_len: nat, vs: Seq<ViolationModel>)
    -> Seq<DiagnosticModel>
    decreases vs.len(),
{
    if vs.len() == 0 {
        Seq::empty()
    } else {
        let rest = violation_diags_model(content_start, text_len, vs.drop_last());
        if kept(content_start, text_len, vs.last()) {
            rest.push(violation_diag_model(content_start, vs.last()))
        } else {
            rest
        }
    }
}

/// Whether the fix diagnostic is owed: some finding is a real violation,
/// the linter produced a fix, and the fix differs byte-for-byte from the
/// original payload.
pub open spec fn fix_owed(lit: SourceLiteral, o: LintOutcome) -> bool {
    match o.fixed_model() {
        Some(f) => spec_has_violations(violation_models(o.violations@)) && f != lit.text@,
        None => false,
    }
}

/// All diagnostics of one successful linter run over one literal.
pub open spec fn outcome_diags_model(lit: SourceLiteral, o: LintOutcome) -> Seq<DiagnosticModel> {
    let base = violation_diags_model(
        lit.content_start() as u32,
        lit.text@.len(),
        violation_models(o.violations@),
    );
    match o.fixed_model() {
        Some(f) => if fix_owed(lit, o) {
            base.push(fix_diag_model(lit, f))
        } else {
            base
        },
        None => base,
    }
}

/// All diagnostics of one linter run over one literal, the failure path
/// included: a failed run yields exactly one diagnostic at the full span.
pub open spec fn result_diags_model(lit: SourceLiteral, result: Result<LintOutcome, String>)
    -> Seq<DiagnosticModel> {
    match result {
        Ok(o) => outcome_diags_model(lit, o),
        Err(e) => seq![failure_diag_model(lit, e@)],
    }
}

/// Re-running the pipeline on an unchanged literal with an unchanged linter
/// result yields the identical diagnostic sequence: emission is a pure
/// function of its inputs, with no hidden state between runs.
pub proof fn lemma_rescan_identical(
    l1: SourceLiteral,
    l2: SourceLiteral,
    r1: Result<LintOutcome, String>,
    r2: Result<LintOutcome, String>,
)
    requires
        l1 == l2,
        r1 == r2,
    ensures
        result_diags_model(l1, r1) == result_diags_model(l2, r2),
{
}

/// No finding's diagnostic carries a suggested edit: the only diagnostic
/// that ever offers one is the fix diagnostic.
pub proof fn lemma_violation_diags_offer_no_fix(
    content_start: u32,
    text_len: nat,
    vs: Seq<ViolationModel>,
)
    ensures
        forall|k: int|
            0 <= k < violation_diags_model(content_start, text_len, vs).len()
                ==> #[trigger] violation_diags_model(content_start, text_len, vs)[k].suggestion
                is None,
    decreases vs.len(),
{
    if vs.len() > 0 {
        lemma_violation_diags_offer_no_fix(content_start, text_len, vs.drop_last());
    }
}

/// Fix suppression: when the linter's fix is byte-identical to the
/// original payload, or no finding is a real violation, the outcome's
/// diagnostics are the findings' alone and none of them offers an edit.
pub proof fn lemma_fix_suppressed(lit: SourceLiteral, o: LintOutcome)
    requires
        o.fixed_model() == Some(lit.text@) || !spec_has_violations(violation_models(o.violations@)),
    ensures
        outcome_diags_model(lit, o) == violation_diags_model(
            lit.content_start() as u32,
            lit.text@.len(),
            violation_models(o.violations@),
        ),
        forall|k: int|
            0 <= k < outcome_diags_model(lit, o).len() ==> #[trigger] outcome_diags_model(
                lit,
                o,
            )[k].suggestion is None,
{
    lemma_violation_diags_offer_no_fix(
        lit.content_start() as u32,
        lit.text@.len(),
        violation_models(o.violations@),
    );
}

/// Dropping an out-of-range finding affects nothing else: a list of
/// findings with one more non-kept finding inserted anywhere yields the
/// same diagnostics as the list without it.
pub proof fn lemma_dropped_violation_no_effect(
    content_start: u32,
    text_len: nat,
    vs: Seq<ViolationModel>,
    i: int,
    v: ViolationModel,
)
    requires
        0 <= i <= vs.len(),
        !kept(content_start, text_len, v),
    ensures
        violation_diags_model(content_start, text_len, vs.insert(i, v)) == violation_diags_model(
            content_start,
            text_len,
            vs,
        ),
    decreases vs.len(),
{
    let ws = vs.insert(i, v);
    if i == vs.len() {
        assert(ws.drop_last() =~= vs);
        assert(ws.last() == v);
    } else {
        assert(ws.last() == vs.last());
        assert(ws.drop_last() =~= vs.drop_last().insert(i, v));
        lemma_dropped_violation_no_effect(content_start, text_len, vs.drop_last(), i, v);
    }
}

/// Findings whose ranges are all kept are projected one-for-one, in the
/// order the linter returned them: nothing is reordered, deduplicated or
/// dropped.
pub proof fn lemma_kept_findings_projected_in_order(
    content_start: u32,
    text_len: nat,
    vs: Seq<ViolationModel>,
)
    requires
        forall|i: int| 0 <= i < vs.len() ==> kept(content_start, text_len, #[trigger] vs[i]),
    ensures
        violation_diags_model(content_start, text_len, vs).len() == vs.len(),
        forall|i: int|
            0 <= i < vs.len() ==> #[trigger] violation_diags_model(content_start, text_len, vs)[i]
                == violation_diag_model(content_start, vs[i]),
    decreases vs.len(),
{
    if vs.len() > 0 {
        lemma_kept_findings_projected_in_order(content_start, text_len, vs.drop_last());
    }
}

/// Turns one linter outcome for `lit` into the diagnostics to report.
pub fn process_outcome(lit: &SourceLiteral, outcome: LintOutcome) -> (r: Vec<Diagnostic>)
    requires
        lit.well_formed(),
    ensures
        diagnostic_models(r@) == outcome_diags_model(*lit, outcome),
{
    let span = lit.content_span();
    let content_start = span.0;
    let text_len = lit.text.len();
    let ghost vms = violation_models(outcome.violations@);
    let mut r: Vec<Diagnostic> = Vec::new();
    let mut i: usize = 0;
    while i < outcome.violations.len()
        invariant
            i <= outcome.violations.len(),
            vms == violation_models(outcome.violations@),
            vms.len() == outcome.violations@.len(),
            content_start == lit.content_start(),
            text_len == lit.text@.len(),
            diagnostic_models(r@) == violation_diags_model(
                content_start,
                text_len as nat,
                vms.take(i as int),
            ),
        decreases outcome.violations.len() - i,
    {
        let v = &outcome.violations[i];
        proof {
            assert(vms.take(i + 1).drop_last() =~= vms.take(i as int));
            assert(vms.take(i + 1).last() == vms[i as int]);
            assert(vms[i as int] == outcome.violations@[i as int]@);
        }
        match emit_violation(content_start, text_len, v.start, v.end, &v.description, &v.code,
            v.warning) {
            Some(d) => {
                let ghost r_old = r@;
                let ghost dm = d@;
                r.push(d);
                proof {
                    assert(diagnostic_models(r_old.push(r@.last())) =~= diagnostic_models(
                        r_old,
                    ).push(dm));
                    assert(diagnostic_models(r@) =~= violation_diags_model(
                        content_start,
                        text_len as nat,
                        vms.take(i + 1),
                    ));
                }
            },
            None => {
                proof {
                    assert(diagnostic_models(r@) =~= violation_diags_model(
                        content_start,
                        text_len as nat,
                        vms.take(i + 1),
                    ));
                }
            },
        }
        i += 1;
    }
    proof {
        assert(vms.take(vms.len() as int) =~= vms);
    }
    let violations_found = has_violations(&outcome.violations);
    match outcome.fixed {
        Some(fixed) => {
            let differs = !bytes_eq(&fixed, &lit.text);
            if violations_found && differs {
                let d = emit_fix(lit, fixed);
                let ghost r_old = r@;
                let ghost dm = d@;
                r.push(d);
                proof {
                    assert(diagnostic_models(r_old.push(r@.last())) =~= diagnostic_models(
                        r_old,
                    ).push(dm));
                }
            }
        },
        None => {},
    }
    r
}

/// Turns the linter's result for `lit` into the diagnostics to report:
/// the outcome's diagnostics on success, one failure diagnostic at the full
/// literal span on failure.
pub fn process_result(lit: &SourceLiteral, result: Result<LintOutcome, String>) -> (r: Vec<
    Diagnostic,
>)
    requires
        lit.well_formed(),
    ensures
        diagnostic_models(r@) == result_diags_model(*lit, result),
{
    match result {
        Ok(outcome) => process_outcome(lit, outcome),
        Err(e) => {
            let d = emit_failure(lit, &e);
            let mut r: Vec<Diagnostic> = Vec::new();
            r.push(d);
            proof {
                assert(diagnostic_models(r@) =~= seq![failure_diag_model(*lit, e@)]);
            }
            r
        },
    }
}

} // verus!
