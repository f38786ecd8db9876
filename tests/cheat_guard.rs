use leviso_cheat_guard::{
    bail, check, ensure, format_report, CheatGuardedFailure, CheckLog, CheckResult, Severity,
};

fn border(n: usize) -> String {
    "=".repeat(n)
}

#[test]
fn test_cheat_ensure_passes() -> Result<(), CheatGuardedFailure> {
    ensure(
        true,
        "This should not trigger",
        "Test passes",
        Severity::Low,
        &["None"],
        "Test fails",
    )?;
    Ok(())
}

#[test]
fn test_cheat_bail_format() {
    let error_message = format!("Error: {} not found", "thing");
    let result: Result<(), CheatGuardedFailure> = bail(
        &error_message,
        "Test scenario",
        Severity::Critical,
        &["Cheat 1", "Cheat 2"],
        "Bad things happen",
    );

    let err = result.unwrap_err();
    let msg = err.message().to_string();
    assert!(msg.contains("PROTECTS: Test scenario"));
    assert!(msg.contains("SEVERITY: CRITICAL"));
    assert!(msg.contains("1. Cheat 1"));
    assert!(msg.contains("2. Cheat 2"));
    assert!(msg.contains("Error: thing not found"));
}

#[test]
fn report_matches_template_exactly() {
    let r = format_report("boom", "P", Severity::High, &["a", "b"], "C");
    let expected = format!(
        "\n{b}\n=== CHEAT-GUARDED FAILURE ===\n{b}\n\nPROTECTS: P\nSEVERITY: HIGH\n\n\
         CHEAT VECTORS:\n  1. a\n  2. b\n\nUSER CONSEQUENCE:\nC\n\nERROR:\nboom\n{b}\n",
        b = border(70)
    );
    assert_eq!(r, expected);
}

#[test]
fn report_single_cheat_has_no_trailing_separator() {
    let r = format_report("e", "p", Severity::Medium, &["only"], "c");
    assert!(r.contains("CHEAT VECTORS:\n  1. only\n\nUSER CONSEQUENCE:"));
    assert!(r.contains("SEVERITY: MEDIUM"));
}

#[test]
fn cheats_numbered_in_input_order() {
    let cheats = ["first", "second", "third"];
    let r = format_report("e", "p", Severity::Low, &cheats, "c");
    let p1 = r.find("  1. first").unwrap();
    let p2 = r.find("  2. second").unwrap();
    let p3 = r.find("  3. third").unwrap();
    assert!(p1 < p2 && p2 < p3);
}

#[test]
fn cheats_numbered_past_nine() {
    let cheats = ["c1", "c2", "c3", "c4", "c5", "c6", "c7", "c8", "c9", "c10", "c11"];
    let r = format_report("e", "p", Severity::Low, &cheats, "c");
    assert!(r.contains("\n  9. c9\n  10. c10\n  11. c11\n"));
}

#[test]
fn format_is_deterministic() {
    let cheats = ["x", "y"];
    let a = format_report("msg", "prop", Severity::Critical, &cheats, "cons");
    let b = format_report("msg", "prop", Severity::Critical, &cheats, "cons");
    assert_eq!(a, b);
}

#[test]
fn severity_labels() {
    assert_eq!(Severity::Critical.label(), "CRITICAL");
    assert_eq!(Severity::High.label(), "HIGH");
    assert_eq!(Severity::Medium.label(), "MEDIUM");
    assert_eq!(Severity::Low.label(), "LOW");
}

#[test]
fn ensure_false_matches_bail() {
    let cheats = ["skip it"];
    let e = ensure(false, "m", "p", Severity::High, &cheats, "c").unwrap_err();
    let b: Result<u32, CheatGuardedFailure> = bail("m", "p", Severity::High, &cheats, "c");
    assert_eq!(e.message(), b.unwrap_err().message());
}

#[test]
fn bail_partition_scenario() {
    let err: CheatGuardedFailure = bail::<()>(
        "Partition vda1 not found",
        "Disk is partitioned correctly",
        Severity::Critical,
        &["Accept exit code without verification", "Skip partition check"],
        "No partitions, installation fails silently",
    )
    .unwrap_err();
    let msg = err.message();
    assert!(msg.contains("\nPROTECTS: Disk is partitioned correctly\n"));
    assert!(msg.contains("\nSEVERITY: CRITICAL\n"));
    assert!(msg.contains("\n  1. Accept exit code without verification\n"));
    assert!(msg.contains("\n  2. Skip partition check\n"));
    assert!(msg.contains("CONSEQUENCE:\nNo partitions, installation fails silently\n"));
    assert!(msg.contains("ERROR:\nPartition vda1 not found\n"));
}

#[test]
fn check_pass_records_pass_without_diagnostics() {
    let mut log = CheckLog::new();
    let mut progress: Vec<String> = Vec::new();
    let mut diagnostics: Vec<String> = Vec::new();
    check(
        &mut log,
        &mut progress,
        &mut diagnostics,
        "Boot entry written",
        true,
        "System boots",
        Severity::High,
        &["Accept any file"],
        "Unbootable system",
        "entry exists".to_string(),
        "entry found".to_string(),
    );
    assert_eq!(progress, vec!["    checking: Boot entry written (protects: System boots)".to_string()]);
    assert!(diagnostics.is_empty());
    assert_eq!(log.len(), 1);
    let (name, result) = log.get(0);
    assert_eq!(name, "Boot entry written");
    assert!(matches!(result, CheckResult::Pass(e) if e == "entry exists"));
    assert!(result.passed());
}

#[test]
fn check_partition_failure_scenario() {
    let mut log = CheckLog::new();
    let mut progress: Vec<String> = Vec::new();
    let mut diagnostics: Vec<String> = Vec::new();
    check(
        &mut log,
        &mut progress,
        &mut diagnostics,
        "Partition table created",
        false,
        "Disk has correct partitions",
        Severity::Critical,
        &["Accept any output", "Skip verification"],
        "No partitions, installation fails",
        "Partition vda1 exists".to_string(),
        "sfdisk output: ...".to_string(),
    );
    assert_eq!(log.len(), 1);
    let (name, result) = log.get(0);
    assert_eq!(name, "Partition table created");
    match result {
        CheckResult::Fail { expected, actual } => {
            assert_eq!(expected, "Partition vda1 exists");
            assert_eq!(actual, "sfdisk output: ...");
        }
        CheckResult::Pass(_) => panic!("expected a failure"),
    }
    assert!(!result.passed());
    assert_eq!(progress.len(), 1);
    let expected_block: Vec<String> = vec![
        String::new(),
        border(60),
        "CHEAT-GUARDED CHECK FAILED: Partition table created".to_string(),
        border(60),
        "PROTECTS: Disk has correct partitions".to_string(),
        "SEVERITY: CRITICAL".to_string(),
        "CHEATS:".to_string(),
        "  1. Accept any output".to_string(),
        "  2. Skip verification".to_string(),
        "CONSEQUENCE: No partitions, installation fails".to_string(),
        border(60),
    ];
    assert_eq!(diagnostics, expected_block);
}

#[test]
fn check_keeps_entries_with_the_same_name() {
    let mut log = CheckLog::new();
    let mut progress: Vec<String> = Vec::new();
    let mut diagnostics: Vec<String> = Vec::new();
    for ok in [true, false] {
        check(
            &mut log,
            &mut progress,
            &mut diagnostics,
            "same",
            ok,
            "p",
            Severity::Low,
            &["c"],
            "q",
            "e".to_string(),
            "a".to_string(),
        );
    }
    assert_eq!(log.len(), 2);
    assert_eq!(log.get(0).0, "same");
    assert_eq!(log.get(1).0, "same");
    assert!(log.get(0).1.passed());
    assert!(!log.get(1).1.passed());
    assert_eq!(progress.len(), 2);
}

#[test]
fn passed_reports_variant() {
    assert!(CheckResult::Pass("x".to_string()).passed());
    let f = CheckResult::Fail { expected: "x".to_string(), actual: "y".to_string() };
    assert!(!f.passed());
}
