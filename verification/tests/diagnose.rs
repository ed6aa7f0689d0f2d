use darkfi_inspect::diagnose::{
    finding_for, CheckResult, CheckState, Confidence, DiagnosticSummary, DiagnosticVerdict,
};

#[test]
fn verdict_is_healthy_when_all_checks_pass() {
    let checks = vec![CheckResult::confirmed_pass("test", "everything is fine")];
    let summary = DiagnosticSummary::from_checks(&checks);

    assert!(matches!(
        DiagnosticVerdict::from_summary(&summary),
        DiagnosticVerdict::Healthy
    ));
}

#[test]
fn verdict_is_attention_when_check_is_unknown() {
    let checks = vec![CheckResult::unknown("test", "could not determine state")];
    let summary = DiagnosticSummary::from_checks(&checks);

    assert!(matches!(
        DiagnosticVerdict::from_summary(&summary),
        DiagnosticVerdict::Attention
    ));
}

#[test]
fn verdict_is_failed_when_check_fails() {
    let checks = vec![CheckResult::confirmed_fail("test", "something is wrong")];
    let summary = DiagnosticSummary::from_checks(&checks);

    assert!(matches!(
        DiagnosticVerdict::from_summary(&summary),
        DiagnosticVerdict::Failed
    ));
}

#[test]
fn failed_check_produces_finding() {
    let check = CheckResult::confirmed_fail("peers", "no connected peers");

    let finding = finding_for(&check);

    assert!(finding.is_some());
    assert!(finding.unwrap().contains("P2P connectivity"));
}

#[test]
fn passed_check_produces_no_finding() {
    let check = CheckResult::confirmed_pass("peers", "3 peer(s) connected");

    assert!(finding_for(&check).is_none());
}

#[test]
fn failed_eventgraph_epoch_produces_finding() {
    let check = CheckResult::confirmed_fail(
        "eventgraph_epoch",
        "2 of 24 genesis timestamps are outside the canonical DarkIRC hourly epoch",
    );

    let finding = finding_for(&check);

    assert!(finding.is_some());
    assert!(finding
        .unwrap()
        .contains("DarkIRC/EventGraph epoch alignment"));
}

#[test]
fn failed_eventgraph_current_produces_finding() {
    let check = CheckResult::confirmed_fail(
        "eventgraph_current",
        "latest genesis is ahead of canonical current rotation",
    );

    let finding = finding_for(&check);

    assert!(finding.is_some());
    assert!(finding
        .unwrap()
        .contains("DarkIRC/EventGraph current rotation"));
}

#[test]
fn unknown_eventgraph_checks_produce_findings() {
    let epoch = CheckResult::unknown("eventgraph_epoch", "no layer-0 genesis timestamps found");

    let current =
        CheckResult::unknown("eventgraph_current", "no layer-0 genesis timestamps found");

    assert!(finding_for(&epoch).is_some());
    assert!(finding_for(&current).is_some());
}

#[test]
fn failed_eventgraph_genesis_produces_finding() {
    let check = CheckResult::confirmed_fail(
        "eventgraph_genesis",
        "1 of 25 genesis ID(s) do not match the canonical DarkIRC genesis identity",
    );

    let finding = finding_for(&check);

    assert!(finding.is_some());
    assert!(finding
        .unwrap()
        .contains("DarkIRC/EventGraph genesis identity"));
}

#[test]
fn unknown_eventgraph_genesis_produces_finding() {
    let check = CheckResult::unknown("eventgraph_genesis", "no layer-0 genesis events found");

    let finding = finding_for(&check);

    assert!(finding.is_some());
    assert!(finding
        .unwrap()
        .contains("DarkIRC/EventGraph genesis identity"));
}

// Checks of this library's own contracts on concrete values.

#[test]
fn constructors_set_state_and_confidence() {
    let p = CheckResult::confirmed_pass("a", "b");
    assert_eq!(p.name, "a");
    assert_eq!(p.message, "b");
    assert_eq!(p.state, CheckState::Pass);
    assert_eq!(p.confidence, Confidence::Confirmed);
    let f = CheckResult::confirmed_fail("a", "b");
    assert_eq!(f.state, CheckState::Fail);
    assert_eq!(f.confidence, Confidence::Confirmed);
    let u = CheckResult::unknown("a", "b");
    assert_eq!(u.state, CheckState::Unknown);
    assert_eq!(u.confidence, Confidence::Unknown);
    let n = CheckResult::new("x", CheckState::Fail, Confidence::Medium, "y");
    assert_eq!(n.name, "x");
    assert_eq!(n.state, CheckState::Fail);
    assert_eq!(n.confidence, Confidence::Medium);
    assert_eq!(n.message, "y");
}

#[test]
fn summary_counts_each_state() {
    let checks = vec![
        CheckResult::confirmed_pass("a", ""),
        CheckResult::confirmed_fail("b", ""),
        CheckResult::unknown("c", ""),
        CheckResult::confirmed_pass("d", ""),
        CheckResult::new("e", CheckState::Fail, Confidence::High, ""),
    ];
    let s = DiagnosticSummary::from_checks(&checks);
    assert_eq!((s.passed, s.failed, s.unknown), (2, 2, 1));
    assert_eq!(s.passed + s.failed + s.unknown, checks.len());

    let empty = DiagnosticSummary::from_checks(&[]);
    assert_eq!((empty.passed, empty.failed, empty.unknown), (0, 0, 0));
    assert!(matches!(
        DiagnosticVerdict::from_summary(&empty),
        DiagnosticVerdict::Healthy
    ));
}

#[test]
fn failure_outranks_unknown_in_verdict() {
    let checks = vec![
        CheckResult::unknown("a", ""),
        CheckResult::confirmed_fail("b", ""),
        CheckResult::confirmed_pass("c", ""),
    ];
    let s = DiagnosticSummary::from_checks(&checks);
    let v = DiagnosticVerdict::from_summary(&s);
    assert!(matches!(v, DiagnosticVerdict::Failed));
    assert_eq!(v.as_str(), "FAILED");
    assert_eq!(DiagnosticVerdict::Healthy.as_str(), "HEALTHY");
    assert_eq!(DiagnosticVerdict::Attention.as_str(), "ATTENTION");
}

#[test]
fn confidence_labels() {
    assert_eq!(Confidence::Confirmed.as_str(), "CONFIRMED");
    assert_eq!(Confidence::High.as_str(), "HIGH");
    assert_eq!(Confidence::Medium.as_str(), "MEDIUM");
    assert_eq!(Confidence::Unknown.as_str(), "UNKNOWN");
}

#[test]
fn finding_is_area_then_message() {
    let check = CheckResult::confirmed_fail("chain_depth", "confirmation depth is 3 blocks");
    assert_eq!(
        finding_for(&check).unwrap(),
        "consensus/synchronization: confirmation depth is 3 blocks"
    );
    let rpc = CheckResult::unknown("eventgraph", "RPC failed");
    assert_eq!(finding_for(&rpc).unwrap(), "DarkIRC EventGraph RPC: RPC failed");
}

#[test]
fn unknown_name_produces_no_finding() {
    let check = CheckResult::confirmed_fail("block_height", "block reports height 3, requested 4");
    assert!(finding_for(&check).is_none());
    let check = CheckResult::unknown("Peers", "case matters");
    assert!(finding_for(&check).is_none());
}

#[test]
fn human_line_pads_name_to_twenty() {
    let check = CheckResult::confirmed_pass("chain_linkage", "previous hash matches block 43727");
    assert_eq!(
        check.human_line(),
        "  chain_linkage        [PASS] [CONFIRMED] previous hash matches block 43727"
    );
    let long = CheckResult::new(
        "a_name_longer_than_twenty",
        CheckState::Unknown,
        Confidence::Unknown,
        "m",
    );
    assert_eq!(long.human_line(), "  a_name_longer_than_twenty [UNKNOWN] [UNKNOWN] m");
    let fail = CheckResult::new("timestamp_sanity", CheckState::Fail, Confidence::High, "x");
    assert_eq!(fail.human_line(), format!("  {:<20} [FAIL] [HIGH] x", "timestamp_sanity"));
}

#[test]
fn summaries_of_groups_add_up() {
    let a = vec![CheckResult::confirmed_pass("a", ""), CheckResult::unknown("b", "")];
    let b = vec![CheckResult::confirmed_fail("c", ""), CheckResult::confirmed_pass("d", "")];
    let sa = DiagnosticSummary::from_checks(&a);
    let sb = DiagnosticSummary::from_checks(&b);
    let all: Vec<CheckResult> = a.into_iter().chain(b).collect();
    let s = DiagnosticSummary::from_checks(&all);
    assert_eq!(s.passed, sa.passed + sb.passed);
    assert_eq!(s.failed, sa.failed + sb.failed);
    assert_eq!(s.unknown, sa.unknown + sb.unknown);
}

#[test]
fn order_does_not_change_summary_and_more_checks_never_lower_verdict() {
    let a = vec![
        CheckResult::confirmed_pass("a", ""),
        CheckResult::unknown("b", ""),
        CheckResult::confirmed_fail("c", ""),
    ];
    let b = vec![
        CheckResult::confirmed_fail("c", ""),
        CheckResult::confirmed_pass("a", ""),
        CheckResult::unknown("b", ""),
    ];
    let sa = DiagnosticSummary::from_checks(&a);
    let sb = DiagnosticSummary::from_checks(&b);
    assert_eq!((sa.passed, sa.failed, sa.unknown), (sb.passed, sb.failed, sb.unknown));

    let base = vec![CheckResult::confirmed_pass("a", "")];
    let more = vec![CheckResult::confirmed_pass("a", ""), CheckResult::unknown("b", "")];
    assert!(matches!(
        DiagnosticVerdict::from_summary(&DiagnosticSummary::from_checks(&base)),
        DiagnosticVerdict::Healthy
    ));
    assert!(matches!(
        DiagnosticVerdict::from_summary(&DiagnosticSummary::from_checks(&more)),
        DiagnosticVerdict::Attention
    ));
}
