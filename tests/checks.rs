use butido_checks::batch::{AggregateError, Batch, JobOutcome};
use butido_checks::filter::{filter_packages, versions_of, PackageFilter, VersionConstraint};
use butido_checks::lint::{start_lint_job, LintStep};
use butido_checks::package::{contains_name, Package};
use butido_checks::pattern::mk_package_name_regex;
use butido_checks::phases::{all_phases_available, PhaseViolation};
use butido_checks::source::{
    classify_source, list_missing, package_line, url, verification_line, verification_outcome,
    Verification,
};

fn strings(v: &[&str]) -> Vec<String> {
    v.iter().map(|s| s.to_string()).collect()
}

fn pkg(name: &str, version: &str, phases: &[&str]) -> Package {
    Package {
        name: name.to_string(),
        version: version.to_string(),
        phases: strings(phases),
        source_url: format!("https://example.org/{}-{}.tar.gz", name, version),
        source_hash: format!("hash-{}-{}", name, version),
    }
}

fn repository() -> Vec<Package> {
    vec![
        pkg("A", "1.0", &["build", "install"]),
        pkg("A", "2.0", &["build"]),
        pkg("B", "1.0", &["build", "install"]),
    ]
}

fn outcome(name: &str, success: bool) -> JobOutcome {
    JobOutcome {
        name: name.to_string(),
        version: "1.0".to_string(),
        success,
        stdout: String::new(),
        stderr: String::new(),
    }
}

fn by_name(name: &str) -> PackageFilter {
    PackageFilter { name: Some(name.to_string()), version: None }
}

fn by_version(constraint: &str) -> PackageFilter {
    PackageFilter { name: None, version: Some(VersionConstraint::new(constraint.to_string()).unwrap()) }
}

#[test]
fn preflight_accepts_equal_sets_in_any_order() {
    let p = pkg("A", "1.0", &["install", "build"]);
    assert!(all_phases_available(&p, &strings(&["build", "install"])).is_ok());
}

#[test]
fn preflight_reports_undeclared_configuration_phase() {
    let p = pkg("A", "2.0", &["build"]);
    let e = all_phases_available(&p, &strings(&["build", "install"])).unwrap_err();
    assert_eq!(e.violation, PhaseViolation::NotDeclared);
    assert_eq!(e.phase, "install");
    assert_eq!(e.message(), "Phase 'install' not configured in A 2.0");
}

#[test]
fn preflight_reports_unconfigured_phase() {
    let p = pkg("A", "1.0", &["build", "check"]);
    let e = all_phases_available(&p, &strings(&["build"])).unwrap_err();
    assert_eq!(e.violation, PhaseViolation::NotConfigured);
    assert_eq!(e.phase, "check");
    assert_eq!(e.message(), "Phase 'check' available in A 1.0, but not in config");
}

#[test]
fn preflight_reports_extra_declared_phase_before_missing_one() {
    // declares "check" (not configured) and lacks "install" (configured)
    let p = pkg("A", "1.0", &["build", "check"]);
    let e = all_phases_available(&p, &strings(&["install", "build"])).unwrap_err();
    assert_eq!(e.violation, PhaseViolation::NotConfigured);
    assert_eq!(e.phase, "check");
}

#[test]
fn preflight_reports_first_violation_in_order() {
    let p = pkg("A", "1.0", &["x", "y"]);
    let e = all_phases_available(&p, &strings(&[])).unwrap_err();
    assert_eq!(e.phase, "x");
    let q = pkg("A", "1.0", &[]);
    let e = all_phases_available(&q, &strings(&["y", "x"])).unwrap_err();
    assert_eq!(e.violation, PhaseViolation::NotDeclared);
    assert_eq!(e.phase, "y");
}

#[test]
fn preflight_accepts_empty_sets() {
    assert!(all_phases_available(&pkg("A", "1.0", &[]), &[]).is_ok());
}

#[test]
fn filter_by_name_returns_only_that_name() {
    let repo = repository();
    assert_eq!(filter_packages(&repo, &by_name("A")), vec![0, 1]);
    assert_eq!(filter_packages(&repo, &by_name("C")), Vec::<usize>::new());
}

#[test]
fn filter_by_exact_version() {
    let repo = repository();
    assert_eq!(filter_packages(&repo, &by_version("=1.0")), vec![0, 2]);
    assert_eq!(filter_packages(&repo, &by_version("=2.0")), vec![1]);
}

#[test]
fn filters_combine_as_conjunction() {
    let repo = repository();
    let f = PackageFilter {
        name: Some("A".to_string()),
        version: Some(VersionConstraint::new("=1.0".to_string()).unwrap()),
    };
    assert_eq!(filter_packages(&repo, &f), vec![0]);
}

#[test]
fn no_filter_passes_everything() {
    let repo = repository();
    let f = PackageFilter { name: None, version: None };
    assert_eq!(filter_packages(&repo, &f), vec![0, 1, 2]);
}

#[test]
fn malformed_version_constraint_is_rejected() {
    assert_eq!(VersionConstraint::new("1.0".to_string()).unwrap_err().input, "1.0");
    assert!(VersionConstraint::new("=".to_string()).is_err());
    assert!(VersionConstraint::new(String::new()).is_err());
    let c = VersionConstraint::new("=1.0".to_string()).unwrap();
    assert!(c.matches(&"1.0".to_string()));
    assert!(!c.matches(&"1.0.1".to_string()));
}

#[test]
fn versions_of_lists_versions_of_name() {
    let repo = repository();
    assert_eq!(versions_of(&repo, &"A".to_string()), vec!["1.0", "2.0"]);
    assert_eq!(versions_of(&repo, &"Z".to_string()), Vec::<String>::new());
}

#[test]
fn aggregate_fails_iff_some_outcome_failed() {
    let mut b = Batch::new(3);
    b.record(outcome("A", true));
    b.record(outcome("B", false));
    b.record(outcome("C", true));
    assert!(b.is_complete());
    assert!(!b.all_succeeded());
    assert_eq!(b.finish(), Err(AggregateError));

    let mut ok = Batch::new(2);
    ok.record(outcome("A", true));
    ok.record(outcome("B", true));
    assert_eq!(ok.finish(), Ok(2));
}

#[test]
fn empty_batch_succeeds() {
    let b = Batch::new(0);
    assert!(b.is_complete());
    assert_eq!(b.finish(), Ok(0));
}

#[test]
fn first_failure_cancels_nothing() {
    let n = 5;
    let mut b = Batch::new(n);
    b.record(outcome("first", false));
    for i in 1..n {
        assert!(!b.is_complete());
        b.record(outcome(&format!("p{}", i), true));
        assert_eq!(b.completed(), i + 1);
    }
    assert!(b.is_complete());
    assert_eq!(b.outcomes().len(), n);
    assert_eq!(b.outcomes()[4].name, "p4");
    assert_eq!(b.finish(), Err(AggregateError));
}

#[test]
fn lint_example_by_name() {
    let repo = repository();
    let configured = strings(&["build", "install"]);
    let ws = filter_packages(&repo, &by_name("A"));
    assert_eq!(ws, vec![0, 1]);
    let mut b = Batch::new(ws.len());
    for &i in &ws {
        let p = &repo[i];
        match start_lint_job(p, &configured) {
            LintStep::Execute => {
                assert_eq!(p.version, "1.0");
                b.record(JobOutcome::exited(p, true, "clean".to_string(), String::new()));
            }
            LintStep::Done(o) => {
                assert_eq!(p.version, "2.0");
                assert!(!o.success);
                assert_eq!(o.stderr, "Phase 'install' not configured in A 2.0");
                b.record(o);
            }
        }
    }
    assert_eq!(b.outcomes().len(), 2);
    assert!(b.outcomes()[0].success);
    assert_eq!(b.outcomes()[0].stdout, "clean");
    assert!(!b.outcomes()[1].success);
    assert_eq!(b.finish(), Err(AggregateError));
}

#[test]
fn source_classification_is_tri_state() {
    let p = pkg("B", "1.0", &["build"]);
    assert_eq!(classify_source(&p, None), Verification::Missing);
    assert_eq!(classify_source(&p, Some("hash-B-1.0".to_string())), Verification::Verified);
    assert_eq!(classify_source(&p, Some("deadbeef".to_string())), Verification::Mismatch);
}

#[test]
fn mismatching_hash_reports_mismatch_line() {
    let p = pkg("B", "1.0", &["build", "install"]);
    let v = classify_source(&p, Some("0000".to_string()));
    let path = "/cache/B-1.0/src.source".to_string();
    assert_eq!(verification_line(v, &path), "Hash Mismatch: /cache/B-1.0/src.source");
}

#[test]
fn verification_lines() {
    let path = "/c/x".to_string();
    assert_eq!(verification_line(Verification::Verified, &path), "Ok: /c/x");
    assert_eq!(verification_line(Verification::Missing, &path), "Source missing: /c/x");
}

#[test]
fn package_line_format() {
    let p = pkg("B", "1.0", &[]);
    assert_eq!(package_line(&p, &"/c/b".to_string()), "B 1.0 -> /c/b");
}

#[test]
fn list_missing_names_absent_artifacts() {
    let repo = repository();
    let present = vec![true, false, false];
    let paths = strings(&["/c/a1", "/c/a2", "/c/b1"]);
    assert_eq!(list_missing(&repo, &present, &paths), vec!["A 2.0 -> /c/a2", "B 1.0 -> /c/b1"]);
    assert_eq!(list_missing(&repo, &vec![true; 3], &paths), Vec::<String>::new());
}

#[test]
fn url_lines_of_working_set() {
    let repo = repository();
    assert_eq!(
        url(&repo, &by_version("=1.0")),
        vec![
            "A 1.0 -> https://example.org/A-1.0.tar.gz",
            "B 1.0 -> https://example.org/B-1.0.tar.gz"
        ]
    );
}

#[test]
fn contains_name_compares_text() {
    let v = strings(&["build", "install"]);
    assert!(contains_name(&v, &"install".to_string()));
    assert!(!contains_name(&v, &"Install".to_string()));
    assert!(!contains_name(&[], &"x".to_string()));
}

#[test]
fn package_name_regex_compiles_or_reports() {
    let re = mk_package_name_regex("^lib[a-z]+$").unwrap();
    assert!(re.is_match("libfoo"));
    assert!(!re.is_match("foo"));
    let e = mk_package_name_regex("(unclosed").unwrap_err();
    assert_eq!(e.pattern, "(unclosed");
}

#[test]
fn package_name_regex_respects_size_limit() {
    assert!(mk_package_name_regex(r"\w{1000}").is_err());
}

#[test]
fn verification_outcome_succeeds_only_when_verified() {
    let p = pkg("B", "1.0", &["build"]);
    let path = "/c/b".to_string();
    let (v, o) = verification_outcome(&p, &path, Some("hash-B-1.0".to_string()));
    assert_eq!(v, Verification::Verified);
    assert!(o.success);
    assert_eq!(o.stdout, "Ok: /c/b");
    let (v, o) = verification_outcome(&p, &path, Some("other".to_string()));
    assert_eq!(v, Verification::Mismatch);
    assert!(!o.success);
    assert_eq!(o.stdout, "Hash Mismatch: /c/b");
    let (v, o) = verification_outcome(&p, &path, None);
    assert_eq!(v, Verification::Missing);
    assert!(!o.success);
    assert_eq!(o.stdout, "Source missing: /c/b");
    assert_eq!(o.name, "B");
}
