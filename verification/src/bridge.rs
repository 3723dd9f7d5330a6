//! The bridge to the external SQL linter, and the scanner that drives the
//! whole per-call-site pipeline.

use vstd::prelude::*;
use vstd::string::StringExecFns;

use crate::directive::{has_inline_directive, spec_has_directive};
use crate::emit::{diagnostic_models, failure_diag_model, Diagnostic};
use crate::extract::CallSite;
use crate::literal::SourceLiteral;
use crate::outcome::{LintOutcome, Violation};
use crate::pipeline::{process_result, result_diags_model};
use crate::registry::TrackedSet;

verus! {

#[verifier::external_type_specification]
#[verifier::external_body]
pub struct ExFluffConfig(sqruff_lib::core::config::FluffConfig);

#[verifier::external_type_specification]
#[verifier::external_body]
pub struct ExLinter(sqruff_lib::core::linter::core::Linter);

#[verifier::external_type_specification]
#[verifier::external_body]
pub struct ExLintedFile(sqruff_lib::core::linter::linted_file::LintedFile);

/// Relies on sqruff_lib's `FluffConfig::default`, which builds the linter
/// configuration shipped with the crate without touching the filesystem.
#[verifier::external_body]
fn default_config() -> sqruff_lib::core::config::FluffConfig {
    sqruff_lib::core::config::FluffConfig::default()
}

/// Relies on sqruff_lib's `Linter::new`, which fails when the
/// configuration asks for a templater it cannot provide; its error is
/// handed back as its message text.
#[verifier::external_body]
fn linter_new(config: sqruff_lib::core::config::FluffConfig, include_parse_errors: bool) -> Result<sqruff_lib::core::linter::core::Linter, String> {
    sqruff_lib::core::linter::core::Linter::new(config, None, None, include_parse_errors)
}

/// Relies on sqruff_lib's `Linter::lint_string`, which lints one string in
/// memory; the text is decoded losslessly for valid UTF-8 payloads. Its
/// error is handed back as its message text. Texts holding an inline
/// configuration directive marker are excluded: for those the linter
/// re-parses its configuration from the text and aborts on malformed
/// directive values instead of returning an error.
#[verifier::external_body]
fn lint_text(linter: &sqruff_lib::core::linter::core::Linter, sql: &Vec<u8>, fix: bool) -> Result<sqruff_lib::core::linter::linted_file::LintedFile, String>
    requires
        !spec_has_directive(sql@),
{
    let text = String::from_utf8_lossy(sql);
    linter.lint_string(text.as_ref(), None, fix).map_err(|e| e.value)
}

/// Relies on sqruff_lib's `LintedFile::violations`, whose items each carry
/// a byte range relative to the linted text (`source_slice`), a
/// description, an optional rule, and a warning flag.
#[verifier::external_body]
fn file_violations(file: &sqruff_lib::core::linter::linted_file::LintedFile) -> Vec<Violation> {
    file.violations().iter().map(|v| Violation::new(
        v.source_slice.start,
        v.source_slice.end,
        v.description.clone(),
        v.rule.as_ref().map(|rule| rule.code.to_string()),
        v.warning,
    )).collect()
}

/// Relies on sqruff_lib's `LintedFile::fix_string`, which renders the
/// linted text with every fix applied; a text with nothing to fix comes
/// back unchanged.
#[verifier::external_body]
fn file_fix_string(file: sqruff_lib::core::linter::linted_file::LintedFile) -> Vec<u8> {
    file.fix_string().into_bytes()
}

/// Builds a linter over the configuration shipped with the linter crate.
pub fn default_linter() -> Result<sqruff_lib::core::linter::core::Linter, String> {
    linter_new(default_config(), true)
}

/// Runs the external linter over one literal's payload and normalizes the
/// result: the findings in the linter's order plus the whole-payload fix on
/// success, the error's text on failure. A payload holding an inline
/// configuration directive marker is never handed to the linter: it takes
/// the failure path with a fixed message.
fn lint_literal(linter: &sqruff_lib::core::linter::core::Linter, lit: &SourceLiteral) -> (r:
    Result<LintOutcome, String>)
    ensures
        spec_has_directive(lit.text@) ==> match r {
            Ok(_) => false,
            Err(e) => e@ == "inline configuration directives are not supported"@,
        },
{
    if has_inline_directive(&lit.text) {
        return Err(String::from_str("inline configuration directives are not supported"));
    }
    match lint_text(linter, &lit.text, true) {
        Ok(file) => {
            let violations = file_violations(&file);
            let fixed = Some(file_fix_string(file));
            Ok(LintOutcome { violations, fixed })
        },
        Err(e) => Err(e),
    }
}

/// The literal a call site hands to the linter: present exactly when the
/// call's target resolved, is tracked, and the payload argument is a string
/// literal.
pub open spec fn scan_target(registry: TrackedSet, call: CallSite) -> Option<SourceLiteral> {
    match call.target {
        Some(id) => if registry.ids_set().contains(id) {
            call.extracted()
        } else {
            None
        },
        None => None,
    }
}

/// The per-call-site hook: skips the call silently unless its target is
/// tracked and its payload argument is a string literal, and otherwise runs
/// extraction, linting, projection and emission to completion. Whatever the
/// linter returned, the diagnostics are exactly the pipeline's image of
/// that result; a payload holding an inline configuration directive marker
/// is never linted and yields exactly the failure diagnostic.
pub fn scan_call(registry: &TrackedSet, linter: &sqruff_lib::core::linter::core::Linter, call: &CallSite) -> (r: Vec<Diagnostic>)
    requires
        call.well_formed(),
    ensures
        match scan_target(*registry, *call) {
            Some(lit) => {
                &&& exists|res: Result<LintOutcome, String>|
                    diagnostic_models(r@) == result_diags_model(lit, res)
                &&& spec_has_directive(lit.text@) ==> diagnostic_models(r@) == seq![
                    failure_diag_model(
                        lit,
                        "inline configuration directives are not supported"@,
                    ),
                ]
            },
            None => r@.len() == 0,
        },
{
    let id = match call.target {
        Some(id) => id,
        None => {
            return Vec::new();
        },
    };
    if !registry.contains(id) {
        return Vec::new();
    }
    let lit = match call.extract_literal() {
        Some(lit) => lit,
        None => {
            return Vec::new();
        },
    };
    let result = lint_literal(linter, lit);
    let ghost g_res = result;
    let r = process_result(lit, result);
    proof {
        assert(diagnostic_models(r@) == result_diags_model(*lit, g_res));
        if spec_has_directive(lit.text@) {
            assert(diagnostic_models(r@) =~= seq![
                failure_diag_model(*lit, "inline configuration directives are not supported"@),
            ]);
        }
    }
    r
}

} // verus!
