use sql_lint_core::bridge::{default_linter, scan_call};
use sql_lint_core::directive::{contains_bytes, has_inline_directive};
use sql_lint_core::emit::{Diagnostic, Suggestion};
use sql_lint_core::extract::{CallArg, CallKind, CallSite};
use sql_lint_core::literal::{LitStyle, SourceLiteral};
use sql_lint_core::outcome::{has_violations, LintOutcome, Violation};
use sql_lint_core::pipeline::{process_outcome, process_result};
use sql_lint_core::registry::{sqlx_query_names, TrackedSet};

fn cooked_literal(text: &str, lo: u32) -> SourceLiteral {
    let hi = lo + 1 + text.len() as u32 + 1;
    SourceLiteral {
        text: text.as_bytes().to_vec(),
        lo,
        hi,
        style: LitStyle::Cooked,
    }
}

fn violation(start: usize, end: usize, desc: &str, code: Option<&str>, warning: bool) -> Violation {
    Violation::new(start, end, desc.to_string(), code.map(|c| c.to_string()), warning)
}

#[test]
fn cooked_content_span_is_one_byte_inside() {
    let lit = cooked_literal("SELECT 1", 100);
    assert_eq!(lit.hi, 110);
    assert_eq!(lit.content_span(), (101, 109));
}

#[test]
fn raw_content_span_is_fence_plus_two_inside() {
    // r#"SELECT 1"# starting at 100: 3 delimiter bytes on each side.
    let lit = SourceLiteral {
        text: b"SELECT 1".to_vec(),
        lo: 100,
        hi: 100 + 3 + 8 + 3,
        style: LitStyle::Raw(1),
    };
    assert_eq!(lit.content_span(), (103, 111));
    // Versus the cooked form of the same payload: shifted by 2 more bytes.
    let cooked = cooked_literal("SELECT 1", 100);
    assert_eq!(lit.content_span().0, cooked.content_span().0 + 2);
}

#[test]
fn raw_zero_fence_still_has_two_byte_delimiters() {
    let lit = SourceLiteral {
        text: b"x".to_vec(),
        lo: 0,
        hi: 5,
        style: LitStyle::Raw(0),
    };
    assert_eq!(lit.content_span(), (2, 3));
}

#[test]
fn violation_is_projected_onto_content_start() {
    let lit = cooked_literal("select*from t", 10);
    // content starts at 11
    let outcome = LintOutcome {
        violations: vec![violation(7, 8, "missing space", Some("L001"), false)],
        fixed: None,
    };
    let diags = process_outcome(&lit, outcome);
    assert_eq!(diags.len(), 1);
    assert_eq!(diags[0].start, 18);
    assert_eq!(diags[0].end, 19);
    assert_eq!(diags[0].message, "[L001]: missing space");
    assert_eq!(diags[0].label.as_deref(), Some("missing space"));
    assert!(diags[0].suggestion.is_none());
}

#[test]
fn fix_diagnostic_replaces_exactly_the_content_span() {
    let lit = cooked_literal("select*from t", 10);
    let outcome = LintOutcome {
        violations: vec![violation(7, 8, "missing space", Some("L001"), false)],
        fixed: Some(b"select * from t".to_vec()),
    };
    let diags = process_outcome(&lit, outcome);
    assert_eq!(diags.len(), 2);
    assert_eq!(diags[1].message, "SQL query contains violations");
    assert_eq!(
        diags[1].suggestion,
        Some(Suggestion {
            start: 11,
            end: 24,
            replacement: b"select * from t".to_vec(),
        })
    );
}

#[test]
fn missing_rule_code_becomes_placeholder() {
    let lit = cooked_literal("select 1", 0);
    let outcome = LintOutcome {
        violations: vec![violation(0, 1, "unfixable", None, false)],
        fixed: None,
    };
    let diags = process_outcome(&lit, outcome);
    assert_eq!(diags.len(), 1);
    assert_eq!(diags[0].message, "[????]: unfixable");
}

#[test]
fn identical_fix_is_suppressed() {
    let lit = cooked_literal("select*from t", 10);
    let outcome = LintOutcome {
        violations: vec![violation(7, 8, "missing space", Some("L001"), false)],
        fixed: Some(b"select*from t".to_vec()),
    };
    let diags = process_outcome(&lit, outcome);
    assert_eq!(diags.len(), 1);
    assert!(diags.iter().all(|d| d.suggestion.is_none()));
}

#[test]
fn fix_without_real_violations_is_suppressed() {
    let lit = cooked_literal("select 1", 10);
    // Only a warning: no fix diagnostic even though the fix differs.
    let outcome = LintOutcome {
        violations: vec![violation(0, 1, "style nit", Some("L002"), true)],
        fixed: Some(b"SELECT 1".to_vec()),
    };
    let diags = process_outcome(&lit, outcome);
    assert_eq!(diags.len(), 1);
    assert!(diags[0].suggestion.is_none());
}

#[test]
fn no_violations_yield_no_diagnostics() {
    let lit = cooked_literal("SELECT * FROM t", 3);
    let outcome = LintOutcome {
        violations: vec![],
        fixed: Some(b"SELECT * FROM t".to_vec()),
    };
    let diags = process_outcome(&lit, outcome);
    assert!(diags.is_empty());
}

#[test]
fn out_of_bounds_violation_is_dropped_others_kept() {
    let lit = cooked_literal("select 1", 10);
    let outcome = LintOutcome {
        violations: vec![
            violation(0, 999, "end past text", Some("L001"), false),
            violation(1, 3, "kept", Some("L002"), false),
            violation(5, 4, "inverted", Some("L003"), false),
        ],
        fixed: None,
    };
    let diags = process_outcome(&lit, outcome);
    assert_eq!(diags.len(), 1);
    assert_eq!(diags[0].message, "[L002]: kept");
    assert_eq!((diags[0].start, diags[0].end), (12, 14));
}

#[test]
fn rerunning_yields_identical_diagnostics() {
    let build = || {
        (
            cooked_literal("select*from t", 10),
            LintOutcome {
                violations: vec![
                    violation(7, 8, "missing space", Some("L001"), false),
                    violation(0, 900, "dropped", None, false),
                ],
                fixed: Some(b"select * from t".to_vec()),
            },
        )
    };
    let (l1, o1) = build();
    let (l2, o2) = build();
    let d1: Vec<Diagnostic> = process_outcome(&l1, o1);
    let d2: Vec<Diagnostic> = process_outcome(&l2, o2);
    assert_eq!(d1, d2);
}

#[test]
fn linter_failure_yields_one_full_span_diagnostic() {
    let lit = cooked_literal("not sql at all", 50);
    let diags = process_result(&lit, Err("tokenizer gave up".to_string()));
    assert_eq!(diags.len(), 1);
    assert_eq!((diags[0].start, diags[0].end), (lit.lo, lit.hi));
    assert_eq!(diags[0].message, "SQL linter failed: tokenizer gave up");
    assert!(diags[0].label.is_none());
    assert!(diags[0].suggestion.is_none());
}

#[test]
fn has_violations_ignores_warnings() {
    let warn_only = vec![violation(0, 1, "w", None, true)];
    assert!(!has_violations(&warn_only));
    let mixed = vec![violation(0, 1, "w", None, true), violation(1, 2, "v", None, false)];
    assert!(has_violations(&mixed));
    assert!(!has_violations(&vec![]));
}

#[test]
fn tracked_set_collapses_duplicates_and_answers_membership() {
    let mut set = TrackedSet::new();
    set.insert(7);
    set.insert(7);
    set.insert(9);
    assert!(set.contains(7));
    assert!(set.contains(9));
    assert!(!set.contains(8));
}

#[test]
fn registry_build_takes_the_union_of_all_resolutions() {
    let resolutions = vec![vec![1, 2], vec![], vec![2, 3]];
    let set = TrackedSet::build(&resolutions);
    assert!(set.contains(1));
    assert!(set.contains(2));
    assert!(set.contains(3));
    assert!(!set.contains(4));
}

#[test]
fn configured_names_cover_the_query_family() {
    let names = sqlx_query_names();
    let expected = [
        "query",
        "query_as",
        "query_as_with",
        "query_scalar",
        "query_scalar_with",
        "query_with",
        "raw_sql",
    ];
    assert_eq!(names.len(), expected.len());
    for (name, expect) in names.iter().zip(expected.iter()) {
        assert_eq!(name, expect);
    }
}

#[test]
fn untracked_or_unresolved_calls_are_skipped() {
    let linter = default_linter().expect("default linter");
    let mut set = TrackedSet::new();
    set.insert(1);
    let unresolved = CallSite {
        target: None,
        kind: CallKind::Function,
        args: vec![CallArg::StrLit(cooked_literal("SELECT 1", 0))],
    };
    assert!(scan_call(&set, &linter, &unresolved).is_empty());
    let untracked = CallSite {
        target: Some(2),
        kind: CallKind::Function,
        args: vec![CallArg::StrLit(cooked_literal("SELECT 1", 0))],
    };
    assert!(scan_call(&set, &linter, &untracked).is_empty());
}

#[test]
fn non_literal_first_argument_is_skipped() {
    let linter = default_linter().expect("default linter");
    let mut set = TrackedSet::new();
    set.insert(1);
    // e.g. query(42): the first argument is an integer, not a string literal.
    let call = CallSite {
        target: Some(1),
        kind: CallKind::Function,
        args: vec![CallArg::Other],
    };
    assert!(scan_call(&set, &linter, &call).is_empty());
    let no_args = CallSite {
        target: Some(1),
        kind: CallKind::Function,
        args: vec![],
    };
    assert!(scan_call(&set, &linter, &no_args).is_empty());
}

#[test]
fn method_call_reads_the_argument_after_the_receiver() {
    let linter = default_linter().expect("default linter");
    let mut set = TrackedSet::new();
    set.insert(1);
    // conn.query("..."): args[0] is the receiver.
    let call = CallSite {
        target: Some(1),
        kind: CallKind::Method,
        args: vec![CallArg::Other, CallArg::StrLit(cooked_literal("SELECT 1", 0))],
    };
    // The receiver being a non-literal must not hide the payload literal.
    let diags = scan_call(&set, &linter, &call);
    for d in &diags {
        assert!(d.start <= d.end);
    }
}

#[test]
fn directive_markers_are_detected() {
    assert!(has_inline_directive(&b"-- sqruff:rules:5\nSELECT 1".to_vec()));
    assert!(has_inline_directive(&b"SELECT 1\n  -- sqlfluff:dialect:ansi\n".to_vec()));
    assert!(!has_inline_directive(&b"SELECT 1 -- plain comment".to_vec()));
    assert!(!has_inline_directive(&b"-- sqruff without colon".to_vec()));
    assert!(!has_inline_directive(&b"".to_vec()));
    assert!(contains_bytes(&b"abcd".to_vec(), &b"bc".to_vec()));
    assert!(!contains_bytes(&b"abcd".to_vec(), &b"bd".to_vec()));
}

#[test]
fn directive_bearing_literals_take_the_failure_path() {
    let linter = default_linter().expect("default linter");
    let mut set = TrackedSet::new();
    set.insert(1);
    // Malformed inline directives would abort inside the linter's own
    // configuration parser; they must degrade to a failure diagnostic.
    for text in [
        "-- sqruff:rules:5\nSELECT 1",
        "-- sqruff:core:sql_file_exts:x:y",
        "  -- sqlfluff:dialect = bogus\nSELECT 1",
    ] {
        let lit = cooked_literal(text, 10);
        let (lo, hi) = (lit.lo, lit.hi);
        let call = CallSite {
            target: Some(1),
            kind: CallKind::Function,
            args: vec![CallArg::StrLit(lit)],
        };
        let diags = scan_call(&set, &linter, &call);
        assert_eq!(diags.len(), 1);
        assert_eq!((diags[0].start, diags[0].end), (lo, hi));
        assert_eq!(
            diags[0].message,
            "SQL linter failed: inline configuration directives are not supported"
        );
        assert!(diags[0].suggestion.is_none());
    }
}

#[test]
fn real_linter_reports_spacing_and_offers_a_changed_fix() {
    let linter = default_linter().expect("default linter");
    let mut set = TrackedSet::new();
    set.insert(1);
    let lit = cooked_literal("select*from t\n", 10);
    let call = CallSite {
        target: Some(1),
        kind: CallKind::Function,
        args: vec![CallArg::StrLit(lit)],
    };
    let diags = scan_call(&set, &linter, &call);
    assert!(!diags.is_empty());
    // Every reported range points inside or at the literal, never before it.
    for d in &diags {
        assert!(d.start >= 10);
        assert!(d.start <= d.end);
    }
    // If a fix is offered, it replaces exactly the content span and differs
    // from the original payload.
    for d in &diags {
        if let Some(s) = &d.suggestion {
            assert_eq!((s.start, s.end), (11, 25));
            assert_ne!(s.replacement, b"select*from t\n".to_vec());
        }
    }
}
