//! Diagnostic check results, their summary, the overall verdict and the
//! findings that point at the subsystem to investigate.
use vstd::prelude::*;

use crate::text::{pad_right, push_padded};

verus! {

/// The outcome of a diagnostic check. `Unknown` means the check could not be
/// performed or verified; how sure we are is a separate `Confidence`.
#[derive(Debug, Clone, Copy, PartialEq, Eq, Structural)]
pub enum CheckState {
    Pass,
    Fail,
    Unknown,
}

/// How sure we are that a check's verdict is correct.
#[derive(Debug, Clone, Copy, PartialEq, Eq, Structural)]
pub enum Confidence {
    /// Directly verified against real on-chain data, no ambiguity.
    Confirmed,
    High,
    Medium,
    Unknown,
}

/// The label printed for a check state.
pub open spec fn state_text(state: CheckState) -> Seq<char> {
    match state {
        CheckState::Pass => "PASS"@,
        CheckState::Fail => "FAIL"@,
        CheckState::Unknown => "UNKNOWN"@,
    }
}

fn state_label(state: CheckState) -> (s: &'static str)
    ensures
        s@ == state_text(state),
{
    match state {
        CheckState::Pass => "PASS",
        CheckState::Fail => "FAIL",
        CheckState::Unknown => "UNKNOWN",
    }
}

impl Confidence {
    /// The label printed for a confidence level.
    pub open spec fn text(self) -> Seq<char> {
        match self {
            Confidence::Confirmed => "CONFIRMED"@,
            Confidence::High => "HIGH"@,
            Confidence::Medium => "MEDIUM"@,
            Confidence::Unknown => "UNKNOWN"@,
        }
    }

    /// The label printed for this confidence level.
    pub fn as_str(&self) -> (s: &'static str)
        ensures
            s@ == self.text(),
    {
        match self {
            Confidence::Confirmed => "CONFIRMED",
            Confidence::High => "HIGH",
            Confidence::Medium => "MEDIUM",
            Confidence::Unknown => "UNKNOWN",
        }
    }
}

/// A single diagnostic observation: what was checked, its outcome, how
/// strongly the outcome is supported, and a message explaining it.
#[derive(Debug)]
pub struct CheckResult {
    pub name: String,
    pub state: CheckState,
    pub confidence: Confidence,
    pub message: String,
}

/// The human-readable line of a check:
/// two spaces, the name padded to 20 characters, ` [STATE] [CONFIDENCE] ` and the message.
pub open spec fn human_line_text(check: CheckResult) -> Seq<char> {
    seq![' ', ' '] + pad_right(check.name@, 20) + seq![' ', '['] + state_text(check.state) + seq![
        ']',
        ' ',
        '[',
    ] + check.confidence.text() + seq![']', ' '] + check.message@
}

impl CheckResult {
    /// A check that passed, directly verified.
    pub fn confirmed_pass(name: &str, message: &str) -> (r: Self)
        ensures
            r.name@ == name@,
            r.state == CheckState::Pass,
            r.confidence == Confidence::Confirmed,
            r.message@ == message@,
    {
        CheckResult {
            name: String::from_str(name),
            state: CheckState::Pass,
            confidence: Confidence::Confirmed,
            message: String::from_str(message),
        }
    }

    /// A check that failed, directly verified.
    pub fn confirmed_fail(name: &str, message: &str) -> (r: Self)
        ensures
            r.name@ == name@,
            r.state == CheckState::Fail,
            r.confidence == Confidence::Confirmed,
            r.message@ == message@,
    {
        CheckResult {
            name: String::from_str(name),
            state: CheckState::Fail,
            confidence: Confidence::Confirmed,
            message: String::from_str(message),
        }
    }

    /// A check whose outcome could not be established.
    pub fn unknown(name: &str, message: &str) -> (r: Self)
        ensures
            r.name@ == name@,
            r.state == CheckState::Unknown,
            r.confidence == Confidence::Unknown,
            r.message@ == message@,
    {
        CheckResult {
            name: String::from_str(name),
            state: CheckState::Unknown,
            confidence: Confidence::Unknown,
            message: String::from_str(message),
        }
    }

    /// A check with an explicit state and confidence.
    pub fn new(name: &str, state: CheckState, confidence: Confidence, message: &str) -> (r: Self)
        ensures
            r.name@ == name@,
            r.state == state,
            r.confidence == confidence,
            r.message@ == message@,
    {
        CheckResult {
            name: String::from_str(name),
            state,
            confidence,
            message: String::from_str(message),
        }
    }

    /// The one-line human-readable rendering of this check, e.g.
    /// `  chain_linkage        [PASS] [CONFIRMED] previous hash matches block 43727`.
    pub fn human_line(&self) -> (s: String)
        ensures
            s@ == human_line_text(*self),
    {
        proof {
            reveal_strlit("  ");
            reveal_strlit(" [");
            reveal_strlit("] [");
            reveal_strlit("] ");
        }
        let mut s = String::new();
        s.append("  ");
        push_padded(&mut s, self.name.as_str(), 20);
        s.append(" [");
        s.append(state_label(self.state));
        s.append("] [");
        s.append(self.confidence.as_str());
        s.append("] ");
        s.append(self.message.as_str());
        assert(s@ =~= human_line_text(*self));
        s
    }
}

/// How many of `checks` are in state `state`.
pub open spec fn count_state(checks: Seq<CheckResult>, state: CheckState) -> nat
    decreases checks.len(),
{
    if checks.len() == 0 {
        0
    } else {
        count_state(checks.drop_last(), state) + if checks.last().state == state {
            1nat
        } else {
            0nat
        }
    }
}

/// A compact count of what the individual checks found, without judging
/// their severity.
#[derive(Debug)]
pub struct DiagnosticSummary {
    pub passed: usize,
    pub failed: usize,
    pub unknown: usize,
}

impl DiagnosticSummary {
    /// Whether this summary counts exactly the checks in `checks`.
    pub open spec fn summarizes(self, checks: Seq<CheckResult>) -> bool {
        &&& self.passed == count_state(checks, CheckState::Pass)
        &&& self.failed == count_state(checks, CheckState::Fail)
        &&& self.unknown == count_state(checks, CheckState::Unknown)
    }

    /// Counts the passed, failed and unknown checks.
    pub fn from_checks(checks: &[CheckResult]) -> (r: Self)
        ensures
            r.summarizes(checks@),
    {
        let n = checks.len();
        let mut passed: usize = 0;
        let mut failed: usize = 0;
        let mut unknown: usize = 0;
        let mut k: usize = 0;
        while k < n
            invariant
                n == checks@.len(),
                k <= n,
                passed == count_state(checks@.take(k as int), CheckState::Pass),
                failed == count_state(checks@.take(k as int), CheckState::Fail),
                unknown == count_state(checks@.take(k as int), CheckState::Unknown),
                passed + failed + unknown == k,
            decreases n - k,
        {
            proof {
                assert(checks@.take(k + 1).drop_last() =~= checks@.take(k as int));
            }
            match checks[k].state {
                CheckState::Pass => passed = passed + 1,
                CheckState::Fail => failed = failed + 1,
                CheckState::Unknown => unknown = unknown + 1,
            }
            k = k + 1;
        }
        assert(checks@.take(n as int) =~= checks@);
        DiagnosticSummary { passed, failed, unknown }
    }
}

/// The report of inspecting one block: what the node returned for it, the
/// checks run on it and their summary.
#[derive(Debug)]
pub struct BlockInspection {
    pub height: u32,
    pub hash: String,
    pub previous: String,
    pub txs: usize,
    pub checks: Vec<CheckResult>,
    pub summary: DiagnosticSummary,
}

/// The overall state of a set of checks.
#[derive(Debug)]
pub enum DiagnosticVerdict {
    Healthy,
    Attention,
    Failed,
}

/// Any failure makes the verdict `Failed`; otherwise any unknown makes it
/// `Attention`; otherwise it is `Healthy`.
pub open spec fn verdict_of(summary: DiagnosticSummary) -> DiagnosticVerdict {
    if summary.failed > 0 {
        DiagnosticVerdict::Failed
    } else if summary.unknown > 0 {
        DiagnosticVerdict::Attention
    } else {
        DiagnosticVerdict::Healthy
    }
}

impl DiagnosticVerdict {
    /// The label printed for a verdict.
    pub open spec fn text(self) -> Seq<char> {
        match self {
            DiagnosticVerdict::Healthy => "HEALTHY"@,
            DiagnosticVerdict::Attention => "ATTENTION"@,
            DiagnosticVerdict::Failed => "FAILED"@,
        }
    }

    /// The verdict for a summary of checks.
    pub fn from_summary(summary: &DiagnosticSummary) -> (r: Self)
        ensures
            r == verdict_of(*summary),
    {
        if summary.failed > 0 {
            DiagnosticVerdict::Failed
        } else if summary.unknown > 0 {
            DiagnosticVerdict::Attention
        } else {
            DiagnosticVerdict::Healthy
        }
    }

    /// The label printed for this verdict.
    pub fn as_str(&self) -> (s: &'static str)
        ensures
            s@ == self.text(),
    {
        match self {
            DiagnosticVerdict::Healthy => "HEALTHY",
            DiagnosticVerdict::Attention => "ATTENTION",
            DiagnosticVerdict::Failed => "FAILED",
        }
    }
}

/// The subsystem to investigate when the check named `name` does not pass;
/// `None` for a name the tool does not know.
pub open spec fn finding_area(name: Seq<char>) -> Option<Seq<char>> {
    if name == "chain"@ {
        Some("blockchain/chain state"@)
    } else if name == "best_fork"@ {
        Some("consensus/fork state"@)
    } else if name == "block_target"@ {
        Some("consensus block target"@)
    } else if name == "chain_tip"@ {
        Some("confirmed chain tip"@)
    } else if name == "chain_linkage"@ {
        Some("blockchain chain linkage"@)
    } else if name == "chain_depth"@ {
        Some("consensus/synchronization"@)
    } else if name == "peers"@ {
        Some("P2P connectivity"@)
    } else if name == "rpc"@ {
        Some("RPC responsiveness"@)
    } else if name == "eventgraph_parents"@ {
        Some("DarkIRC/EventGraph synchronization"@)
    } else if name == "eventgraph_rotation"@ {
        Some("DarkIRC/EventGraph rotation history"@)
    } else if name == "eventgraph_epoch"@ {
        Some("DarkIRC/EventGraph epoch alignment"@)
    } else if name == "eventgraph_current"@ {
        Some("DarkIRC/EventGraph current rotation"@)
    } else if name == "eventgraph_genesis"@ {
        Some("DarkIRC/EventGraph genesis identity"@)
    } else if name == "eventgraph"@ {
        Some("DarkIRC EventGraph RPC"@)
    } else {
        None
    }
}

/// The finding for a check: none for a passed check or an unknown name,
/// otherwise the area, `": "` and the check's message.
pub open spec fn finding_text(check: CheckResult) -> Option<Seq<char>> {
    match finding_area(check.name@) {
        Some(area) => if check.state == CheckState::Pass {
            None
        } else {
            Some(area + seq![':', ' '] + check.message@)
        },
        None => None,
    }
}

fn name_is(name: &String, literal: &str) -> (r: bool)
    ensures
        r == (name@ == literal@),
{
    *name == String::from_str(literal)
}

fn finding_area_for(name: &String) -> (r: Option<&'static str>)
    ensures
        match r {
            Some(a) => finding_area(name@) == Some(a@),
            None => finding_area(name@) is None,
        },
{
    if name_is(name, "chain") {
        Some("blockchain/chain state")
    } else if name_is(name, "best_fork") {
        Some("consensus/fork state")
    } else if name_is(name, "block_target") {
        Some("consensus block target")
    } else if name_is(name, "chain_tip") {
        Some("confirmed chain tip")
    } else if name_is(name, "chain_linkage") {
        Some("blockchain chain linkage")
    } else if name_is(name, "chain_depth") {
        Some("consensus/synchronization")
    } else if name_is(name, "peers") {
        Some("P2P connectivity")
    } else if name_is(name, "rpc") {
        Some("RPC responsiveness")
    } else if name_is(name, "eventgraph_parents") {
        Some("DarkIRC/EventGraph synchronization")
    } else if name_is(name, "eventgraph_rotation") {
        Some("DarkIRC/EventGraph rotation history")
    } else if name_is(name, "eventgraph_epoch") {
        Some("DarkIRC/EventGraph epoch alignment")
    } else if name_is(name, "eventgraph_current") {
        Some("DarkIRC/EventGraph current rotation")
    } else if name_is(name, "eventgraph_genesis") {
        Some("DarkIRC/EventGraph genesis identity")
    } else if name_is(name, "eventgraph") {
        Some("DarkIRC EventGraph RPC")
    } else {
        None
    }
}

/// Turns a failed or unknown check into a useful next place to investigate.
pub fn finding_for(check: &CheckResult) -> (r: Option<String>)
    ensures
        match r {
            Some(f) => finding_text(*check) == Some(f@),
            None => finding_text(*check) is None,
        },
{
    let area = match finding_area_for(&check.name) {
        Some(a) => a,
        None => return None,
    };
    match check.state {
        CheckState::Pass => None,
        _ => {
            proof { reveal_strlit(": "); }
            let mut f = String::from_str(area);
            f.append(": ");
            f.append(check.message.as_str());
            assert(f@ =~= area@ + seq![':', ' '] + check.message@);
            Some(f)
        },
    }
}

/// A check's state is exactly one of pass, fail and unknown, so the three
/// counts of a summary add up to the number of checks.
pub proof fn lemma_summary_counts_every_check(checks: Seq<CheckResult>)
    ensures
        count_state(checks, CheckState::Pass) + count_state(checks, CheckState::Fail)
            + count_state(checks, CheckState::Unknown) == checks.len(),
    decreases checks.len(),
{
    if checks.len() > 0 {
        lemma_summary_counts_every_check(checks.drop_last());
    }
}

/// Some check is in state `state` exactly when its count is not zero.
pub proof fn lemma_count_positive_iff_present(checks: Seq<CheckResult>, state: CheckState)
    ensures
        count_state(checks, state) > 0 <==> exists|i: int|
            0 <= i < checks.len() && (#[trigger] checks[i]).state == state,
    decreases checks.len(),
{
    if checks.len() > 0 {
        let rest = checks.drop_last();
        lemma_count_positive_iff_present(rest, state);
        if count_state(checks, state) > 0 {
            if checks.last().state == state {
                assert(checks[checks.len() - 1].state == state);
            } else {
                let i = choose|i: int| 0 <= i < rest.len() && (#[trigger] rest[i]).state == state;
                assert(checks[i] == rest[i]);
            }
        } else {
            assert forall|i: int| 0 <= i < checks.len() implies (#[trigger] checks[i]).state
                != state by {
                if i < checks.len() - 1 {
                    assert(checks[i] == rest[i]);
                }
            }
        }
    }
}

/// The verdict of a set of checks: `Failed` exactly when some check failed,
/// `Attention` exactly when none failed and some is unknown, and `Healthy`
/// exactly when every check passed.
pub proof fn lemma_verdict_reflects_checks(checks: Seq<CheckResult>, summary: DiagnosticSummary)
    requires
        summary.summarizes(checks),
    ensures
        (verdict_of(summary) == DiagnosticVerdict::Failed) <==> exists|i: int|
            0 <= i < checks.len() && (#[trigger] checks[i]).state == CheckState::Fail,
        (verdict_of(summary) == DiagnosticVerdict::Attention) <==> (!exists|i: int|
            0 <= i < checks.len() && (#[trigger] checks[i]).state == CheckState::Fail) && exists|
            i: int,
        |
            0 <= i < checks.len() && (#[trigger] checks[i]).state == CheckState::Unknown,
        (verdict_of(summary) == DiagnosticVerdict::Healthy) <==> forall|i: int|
            0 <= i < checks.len() ==> (#[trigger] checks[i]).state == CheckState::Pass,
{
    lemma_count_positive_iff_present(checks, CheckState::Fail);
    lemma_count_positive_iff_present(checks, CheckState::Unknown);
    if verdict_of(summary) != DiagnosticVerdict::Healthy {
        if summary.failed > 0 {
            let i = choose|i: int|
                0 <= i < checks.len() && (#[trigger] checks[i]).state == CheckState::Fail;
            assert(checks[i].state != CheckState::Pass);
        } else {
            let i = choose|i: int|
                0 <= i < checks.len() && (#[trigger] checks[i]).state == CheckState::Unknown;
            assert(checks[i].state != CheckState::Pass);
        }
    } else {
        assert forall|i: int| 0 <= i < checks.len() implies (#[trigger] checks[i]).state
            == CheckState::Pass by {
            if checks[i].state == CheckState::Fail {
            } else if checks[i].state == CheckState::Unknown {
            }
        }
    }
}

/// A passed check never produces a finding, so a set of checks that all
/// passed produces no findings at all.
pub proof fn lemma_passed_checks_have_no_findings(checks: Seq<CheckResult>)
    requires
        forall|i: int| 0 <= i < checks.len() ==> (#[trigger] checks[i]).state == CheckState::Pass,
    ensures
        forall|i: int| 0 <= i < checks.len() ==> finding_text(#[trigger] checks[i]) is None,
{
}

/// A check that did not pass and whose name the tool knows always produces
/// a finding, which starts with the area to investigate and ends with the
/// check's message.
pub proof fn lemma_known_failure_has_finding(check: CheckResult)
    requires
        check.state != CheckState::Pass,
        finding_area(check.name@) is Some,
    ensures
        finding_text(check) is Some,
        finding_text(check)->0.take(finding_area(check.name@)->0.len() as int) == finding_area(
            check.name@,
        )->0,
        finding_text(check)->0.skip(finding_text(check)->0.len() - check.message@.len())
            == check.message@,
{
    let area = finding_area(check.name@)->0;
    let f = area + seq![':', ' '] + check.message@;
    assert(f.take(area.len() as int) =~= area);
    assert(f.skip(f.len() - check.message@.len()) =~= check.message@);
}

/// Counting is additive: the checks of two lists together count as the sum
/// of each list's counts, so summaries of separate groups of checks add up.
pub proof fn lemma_count_additive(a: Seq<CheckResult>, b: Seq<CheckResult>, state: CheckState)
    ensures
        count_state(a + b, state) == count_state(a, state) + count_state(b, state),
    decreases b.len(),
{
    if b.len() > 0 {
        lemma_count_additive(a, b.drop_last(), state);
        assert((a + b).drop_last() =~= a + b.drop_last());
    } else {
        assert(a + b =~= a);
    }
}

/// Whether a check is in state `state`.
pub open spec fn in_state(state: CheckState) -> spec_fn(CheckResult) -> bool {
    |c: CheckResult| c.state == state
}

/// A state's count is the number of checks in that state, whatever order
/// they come in: it depends only on the multiset of checks.
pub proof fn lemma_count_is_multiset_count(checks: Seq<CheckResult>, state: CheckState)
    ensures
        count_state(checks, state) == checks.to_multiset().filter(in_state(state)).len(),
    decreases checks.len(),
{
    broadcast use vstd::multiset::group_multiset_axioms;
    broadcast use vstd::seq_lib::group_to_multiset_ensures;

    let f = in_state(state);
    if checks.len() == 0 {
        assert(checks.to_multiset() =~= vstd::multiset::Multiset::<CheckResult>::empty());
        assert(checks.to_multiset().filter(f) =~= vstd::multiset::Multiset::<CheckResult>::empty());
    } else {
        let rest = checks.drop_last();
        let x = checks.last();
        lemma_count_is_multiset_count(rest, state);
        assert(checks =~= rest.push(x));
        let m = rest.to_multiset();
        assert(checks.to_multiset() =~= m.insert(x));
        if x.state == state {
            assert(m.insert(x).filter(f) =~= m.filter(f).insert(x));
        } else {
            assert(m.insert(x).filter(f) =~= m.filter(f));
        }
    }
}

/// Reordering the checks changes none of the counts, so the summary and the
/// verdict do not depend on the order in which checks are run.
pub proof fn lemma_counts_ignore_order(a: Seq<CheckResult>, b: Seq<CheckResult>, state: CheckState)
    requires
        a.to_multiset() == b.to_multiset(),
    ensures
        count_state(a, state) == count_state(b, state),
{
    lemma_count_is_multiset_count(a, state);
    lemma_count_is_multiset_count(b, state);
}

/// How severe a verdict is: healthy, then attention, then failed.
pub open spec fn severity(v: DiagnosticVerdict) -> int {
    match v {
        DiagnosticVerdict::Healthy => 0,
        DiagnosticVerdict::Attention => 1,
        DiagnosticVerdict::Failed => 2,
    }
}

/// Running more checks never makes the verdict less severe: the verdict of
/// `checks` followed by `more` is at least as severe as that of `checks`.
pub proof fn lemma_more_checks_never_less_severe(
    checks: Seq<CheckResult>,
    more: Seq<CheckResult>,
    summary: DiagnosticSummary,
    extended: DiagnosticSummary,
)
    requires
        summary.summarizes(checks),
        extended.summarizes(checks + more),
    ensures
        severity(verdict_of(summary)) <= severity(verdict_of(extended)),
{
    lemma_count_additive(checks, more, CheckState::Fail);
    lemma_count_additive(checks, more, CheckState::Unknown);
}

/// Each check name the tool knows points at its own subsystem.
pub proof fn lemma_known_names_have_their_areas()
    ensures
        finding_area("chain"@) == Some("blockchain/chain state"@),
        finding_area("best_fork"@) == Some("consensus/fork state"@),
        finding_area("block_target"@) == Some("consensus block target"@),
        finding_area("chain_tip"@) == Some("confirmed chain tip"@),
        finding_area("chain_linkage"@) == Some("blockchain chain linkage"@),
        finding_area("chain_depth"@) == Some("consensus/synchronization"@),
        finding_area("peers"@) == Some("P2P connectivity"@),
        finding_area("rpc"@) == Some("RPC responsiveness"@),
        finding_area("eventgraph_parents"@) == Some("DarkIRC/EventGraph synchronization"@),
        finding_area("eventgraph_rotation"@) == Some("DarkIRC/EventGraph rotation history"@),
        finding_area("eventgraph_epoch"@) == Some("DarkIRC/EventGraph epoch alignment"@),
        finding_area("eventgraph_current"@) == Some("DarkIRC/EventGraph current rotation"@),
        finding_area("eventgraph_genesis"@) == Some("DarkIRC/EventGraph genesis identity"@),
        finding_area("eventgraph"@) == Some("DarkIRC EventGraph RPC"@),
{
    reveal_strlit("chain");
    reveal_strlit("best_fork");
    reveal_strlit("block_target");
    reveal_strlit("chain_tip");
    reveal_strlit("chain_linkage");
    reveal_strlit("chain_depth");
    reveal_strlit("peers");
    reveal_strlit("rpc");
    reveal_strlit("eventgraph_parents");
    reveal_strlit("eventgraph_rotation");
    reveal_strlit("eventgraph_epoch");
    reveal_strlit("eventgraph_current");
    reveal_strlit("eventgraph_genesis");
    reveal_strlit("eventgraph");
    assert("chain"@.len() != "best_fork"@.len());
    assert("chain"@.len() != "block_target"@.len());
    assert("best_fork"@.len() != "block_target"@.len());
    assert("chain"@.len() != "chain_tip"@.len());
    assert("best_fork"@[0] != "chain_tip"@[0]);
    assert("block_target"@.len() != "chain_tip"@.len());
    assert("chain"@.len() != "chain_linkage"@.len());
    assert("best_fork"@.len() != "chain_linkage"@.len());
    assert("block_target"@.len() != "chain_linkage"@.len());
    assert("chain_tip"@.len() != "chain_linkage"@.len());
    assert("chain"@.len() != "chain_depth"@.len());
    assert("best_fork"@.len() != "chain_depth"@.len());
    assert("block_target"@.len() != "chain_depth"@.len());
    assert("chain_tip"@.len() != "chain_depth"@.len());
    assert("chain_linkage"@.len() != "chain_depth"@.len());
    assert("chain"@[0] != "peers"@[0]);
    assert("best_fork"@.len() != "peers"@.len());
    assert("block_target"@.len() != "peers"@.len());
    assert("chain_tip"@.len() != "peers"@.len());
    assert("chain_linkage"@.len() != "peers"@.len());
    assert("chain_depth"@.len() != "peers"@.len());
    assert("chain"@.len() != "rpc"@.len());
    assert("best_fork"@.len() != "rpc"@.len());
    assert("block_target"@.len() != "rpc"@.len());
    assert("chain_tip"@.len() != "rpc"@.len());
    assert("chain_linkage"@.len() != "rpc"@.len());
    assert("chain_depth"@.len() != "rpc"@.len());
    assert("peers"@.len() != "rpc"@.len());
    assert("chain"@.len() != "eventgraph_parents"@.len());
    assert("best_fork"@.len() != "eventgraph_parents"@.len());
    assert("block_target"@.len() != "eventgraph_parents"@.len());
    assert("chain_tip"@.len() != "eventgraph_parents"@.len());
    assert("chain_linkage"@.len() != "eventgraph_parents"@.len());
    assert("chain_depth"@.len() != "eventgraph_parents"@.len());
    assert("peers"@.len() != "eventgraph_parents"@.len());
    assert("rpc"@.len() != "eventgraph_parents"@.len());
    assert("chain"@.len() != "eventgraph_rotation"@.len());
    assert("best_fork"@.len() != "eventgraph_rotation"@.len());
    assert("block_target"@.len() != "eventgraph_rotation"@.len());
    assert("chain_tip"@.len() != "eventgraph_rotation"@.len());
    assert("chain_linkage"@.len() != "eventgraph_rotation"@.len());
    assert("chain_depth"@.len() != "eventgraph_rotation"@.len());
    assert("peers"@.len() != "eventgraph_rotation"@.len());
    assert("rpc"@.len() != "eventgraph_rotation"@.len());
    assert("eventgraph_parents"@.len() != "eventgraph_rotation"@.len());
    assert("chain"@.len() != "eventgraph_epoch"@.len());
    assert("best_fork"@.len() != "eventgraph_epoch"@.len());
    assert("block_target"@.len() != "eventgraph_epoch"@.len());
    assert("chain_tip"@.len() != "eventgraph_epoch"@.len());
    assert("chain_linkage"@.len() != "eventgraph_epoch"@.len());
    assert("chain_depth"@.len() != "eventgraph_epoch"@.len());
    assert("peers"@.len() != "eventgraph_epoch"@.len());
    assert("rpc"@.len() != "eventgraph_epoch"@.len());
    assert("eventgraph_parents"@.len() != "eventgraph_epoch"@.len());
    assert("eventgraph_rotation"@.len() != "eventgraph_epoch"@.len());
    assert("chain"@.len() != "eventgraph_current"@.len());
    assert("best_fork"@.len() != "eventgraph_current"@.len());
    assert("block_target"@.len() != "eventgraph_current"@.len());
    assert("chain_tip"@.len() != "eventgraph_current"@.len());
    assert("chain_linkage"@.len() != "eventgraph_current"@.len());
    assert("chain_depth"@.len() != "eventgraph_current"@.len());
    assert("peers"@.len() != "eventgraph_current"@.len());
    assert("rpc"@.len() != "eventgraph_current"@.len());
    assert("eventgraph_parents"@[11] != "eventgraph_current"@[11]);
    assert("eventgraph_rotation"@.len() != "eventgraph_current"@.len());
    assert("eventgraph_epoch"@.len() != "eventgraph_current"@.len());
    assert("chain"@.len() != "eventgraph_genesis"@.len());
    assert("best_fork"@.len() != "eventgraph_genesis"@.len());
    assert("block_target"@.len() != "eventgraph_genesis"@.len());
    assert("chain_tip"@.len() != "eventgraph_genesis"@.len());
    assert("chain_linkage"@.len() != "eventgraph_genesis"@.len());
    assert("chain_depth"@.len() != "eventgraph_genesis"@.len());
    assert("peers"@.len() != "eventgraph_genesis"@.len());
    assert("rpc"@.len() != "eventgraph_genesis"@.len());
    assert("eventgraph_parents"@[11] != "eventgraph_genesis"@[11]);
    assert("eventgraph_rotation"@.len() != "eventgraph_genesis"@.len());
    assert("eventgraph_epoch"@.len() != "eventgraph_genesis"@.len());
    assert("eventgraph_current"@[11] != "eventgraph_genesis"@[11]);
    assert("chain"@.len() != "eventgraph"@.len());
    assert("best_fork"@.len() != "eventgraph"@.len());
    assert("block_target"@.len() != "eventgraph"@.len());
    assert("chain_tip"@.len() != "eventgraph"@.len());
    assert("chain_linkage"@.len() != "eventgraph"@.len());
    assert("chain_depth"@.len() != "eventgraph"@.len());
    assert("peers"@.len() != "eventgraph"@.len());
    assert("rpc"@.len() != "eventgraph"@.len());
    assert("eventgraph_parents"@.len() != "eventgraph"@.len());
    assert("eventgraph_rotation"@.len() != "eventgraph"@.len());
    assert("eventgraph_epoch"@.len() != "eventgraph"@.len());
    assert("eventgraph_current"@.len() != "eventgraph"@.len());
    assert("eventgraph_genesis"@.len() != "eventgraph"@.len());
}

/// A failed or unknown check always yields a finding, `area: message`, when
/// its name is one the tool knows, with that name's subsystem as the area;
/// a passed check never yields one.
pub proof fn lemma_failed_known_check_finding(check: CheckResult, area: Seq<char>)
    requires
        finding_area(check.name@) == Some(area),
    ensures
        check.state != CheckState::Pass ==> finding_text(check) == Some(
            area + seq![':', ' '] + check.message@,
        ),
        check.state == CheckState::Pass ==> finding_text(check) is None,
{
}

/// A check's line starts with two spaces and the check's name, whose column
/// is at least twenty characters wide, and ends with the check's message.
pub proof fn lemma_human_line_shows_name_and_message(check: CheckResult)
    ensures
        human_line_text(check).take(2) == seq![' ', ' '],
        human_line_text(check).subrange(2, 2 + check.name@.len() as int) == check.name@,
        human_line_text(check).len() >= 2 + 20 + 2 + state_text(check.state).len() + 3
            + check.confidence.text().len() + 2 + check.message@.len(),
        human_line_text(check).skip(human_line_text(check).len() - check.message@.len())
            == check.message@,
{
    let name = check.name@;
    let p = pad_right(name, 20);
    crate::text::lemma_pad_right(name, 20);
    let l = human_line_text(check);
    assert(l.take(2) =~= seq![' ', ' ']);
    assert(l.subrange(2, 2 + name.len() as int) =~= p.take(name.len() as int));
    assert(l.skip(l.len() - check.message@.len()) =~= check.message@);
}

} // verus!
