//! Inspection of a single block or transaction: the checks run on what the
//! node returned, the inspection report, and its human-readable lines.
use vstd::prelude::*;

use crate::diagnose::{
    human_line_text, CheckResult, CheckState, Confidence, DiagnosticSummary,
    BlockInspection,
};
use crate::text::{
    debug_list, debug_option, decimal, eq_ignore_ascii_case, eq_ignore_ascii_case_spec,
    push_debug_list, push_debug_option, push_decimal, usize_nats, widen_usizes,
};

verus! {

/// What the inspector reads of a block returned by the node: its height,
/// its hash and its predecessor's hash (as the node's hash rendering) and
/// its number of transactions.
#[derive(Debug)]
pub struct BlockSummary {
    pub height: u32,
    pub hash: String,
    pub previous: String,
    pub txs: usize,
}

/// What the inspector reads of a contract call inside a transaction.
#[derive(Debug)]
pub struct TxCall {
    pub contract_id: String,
    pub data: Vec<u8>,
    pub parent_index: Option<usize>,
    pub children_indexes: Vec<usize>,
}

/// What the inspector reads of a transaction: its hash (as the node's
/// rendering), its calls, whether its calls form a structurally valid call
/// forest by DarkFi's integrity check, and the numbers of proof and
/// signature groups.
#[derive(Debug)]
pub struct TxSummary {
    pub hash: String,
    pub calls: Vec<TxCall>,
    pub call_forest_valid: bool,
    pub proof_groups: usize,
    pub signature_groups: usize,
}

/// Whether `check` has the given name, state, confidence and message.
pub open spec fn check_is(
    check: CheckResult,
    name: Seq<char>,
    state: CheckState,
    confidence: Confidence,
    message: Seq<char>,
) -> bool {
    &&& check.name@ == name
    &&& check.state == state
    &&& check.confidence == confidence
    &&& check.message@ == message
}

/// The check that the block reports the requested height.
pub open spec fn block_height_check(check: CheckResult, requested: u32, block: BlockSummary) -> bool {
    if block.height == requested {
        check_is(
            check,
            "block_height"@,
            CheckState::Pass,
            Confidence::Confirmed,
            "block reports requested height "@ + decimal(requested as nat),
        )
    } else {
        check_is(
            check,
            "block_height"@,
            CheckState::Fail,
            Confidence::Confirmed,
            "block reports height "@ + decimal(block.height as nat) + ", requested "@ + decimal(
                requested as nat,
            ),
        )
    }
}

/// Verifies that the block returned by the node reports the height that was
/// requested.
pub fn check_block_height(requested_height: u32, block: &BlockSummary) -> (r: CheckResult)
    ensures
        block_height_check(r, requested_height, *block),
        (r.state == CheckState::Pass) == (block.height == requested_height),
{
    if block.height == requested_height {
        let mut m = String::from_str("block reports requested height ");
        push_decimal(&mut m, requested_height as u128);
        CheckResult::confirmed_pass("block_height", m.as_str())
    } else {
        let mut m = String::from_str("block reports height ");
        push_decimal(&mut m, block.height as u128);
        m.append(", requested ");
        push_decimal(&mut m, requested_height as u128);
        assert(m@ =~= "block reports height "@ + decimal(block.height as nat) + ", requested "@
            + decimal(requested_height as nat));
        CheckResult::confirmed_fail("block_height", m.as_str())
    }
}

/// The check that a block points to the hash of its predecessor.
pub open spec fn chain_linkage_check(
    check: CheckResult,
    height: u32,
    block: BlockSummary,
    prev: Option<BlockSummary>,
) -> bool {
    if height == 0 {
        check_is(
            check,
            "chain_linkage"@,
            CheckState::Unknown,
            Confidence::Unknown,
            "N/A - genesis block has no predecessor"@,
        )
    } else {
        match prev {
            Some(p) => if p.hash@ == block.previous@ {
                check_is(
                    check,
                    "chain_linkage"@,
                    CheckState::Pass,
                    Confidence::Confirmed,
                    "previous hash matches block "@ + decimal((height - 1) as nat),
                )
            } else {
                check_is(
                    check,
                    "chain_linkage"@,
                    CheckState::Fail,
                    Confidence::Confirmed,
                    "previous hash does NOT match block "@ + decimal((height - 1) as nat)
                        + " - possible reorg or consensus anomaly"@,
                )
            },
            None => check_is(
                check,
                "chain_linkage"@,
                CheckState::Unknown,
                Confidence::Unknown,
                "could not fetch block "@ + decimal((height - 1) as nat) + " to verify"@,
            ),
        }
    }
}

/// The optional reference turned into an optional value, for contracts.
pub open spec fn opt_block(prev: Option<&BlockSummary>) -> Option<BlockSummary> {
    match prev {
        Some(p) => Some(*p),
        None => None,
    }
}

/// Verifies that a block points to the actual hash of its predecessor: a
/// confirmed pass or failure when the predecessor is available, unknown
/// otherwise and for the genesis block.
pub fn check_chain_linkage(height: u32, block: &BlockSummary, prev_block: Option<&BlockSummary>) -> (r:
    CheckResult)
    ensures
        chain_linkage_check(r, height, *block, opt_block(prev_block)),
        (r.state == CheckState::Pass) == (height != 0 && prev_block is Some
            && prev_block->0.hash@ == block.previous@),
{
    if height == 0 {
        return CheckResult::unknown("chain_linkage", "N/A - genesis block has no predecessor");
    }
    match prev_block {
        Some(prev) => {
            if prev.hash == block.previous {
                let mut m = String::from_str("previous hash matches block ");
                push_decimal(&mut m, (height - 1) as u128);
                CheckResult::confirmed_pass("chain_linkage", m.as_str())
            } else {
                let mut m = String::from_str("previous hash does NOT match block ");
                push_decimal(&mut m, (height - 1) as u128);
                m.append(" - possible reorg or consensus anomaly");
                assert(m@ =~= "previous hash does NOT match block "@ + decimal((height - 1) as nat)
                    + " - possible reorg or consensus anomaly"@);
                CheckResult::confirmed_fail("chain_linkage", m.as_str())
            }
        },
        None => {
            let mut m = String::from_str("could not fetch block ");
            push_decimal(&mut m, (height - 1) as u128);
            m.append(" to verify");
            assert(m@ =~= "could not fetch block "@ + decimal((height - 1) as nat) + " to verify"@);
            CheckResult::unknown("chain_linkage", m.as_str())
        },
    }
}

/// The check that a block's timestamp satisfies DarkFi's timestamp rules:
/// unknown for the genesis block, when the predecessor is missing, and when
/// DarkFi's verdict could not be established (`rules_verdict` is `None`);
/// otherwise a confirmed pass when the rules hold and a high-confidence
/// failure when they do not.
pub open spec fn timestamp_sanity_check(
    check: CheckResult,
    height: u32,
    prev: Option<BlockSummary>,
    rules_verdict: Option<bool>,
) -> bool {
    if height == 0 {
        check_is(
            check,
            "timestamp_sanity"@,
            CheckState::Unknown,
            Confidence::Unknown,
            "N/A \u{2014} genesis block has no predecessor"@,
        )
    } else {
        match prev {
            None => check_is(
                check,
                "timestamp_sanity"@,
                CheckState::Unknown,
                Confidence::Unknown,
                "could not fetch block "@ + decimal((height - 1) as nat) + " to verify"@,
            ),
            Some(p) => match rules_verdict {
                Some(true) => check_is(
                    check,
                    "timestamp_sanity"@,
                    CheckState::Pass,
                    Confidence::Confirmed,
                    "timestamp satisfies DarkFi rules"@,
                ),
                Some(false) => check_is(
                    check,
                    "timestamp_sanity"@,
                    CheckState::Fail,
                    Confidence::High,
                    "timestamp violates the current DarkFi timestamp sanity rules"@,
                ),
                None => check_is(
                    check,
                    "timestamp_sanity"@,
                    CheckState::Unknown,
                    Confidence::Unknown,
                    "could not fetch the blocks DarkFi's timestamp rules need for block "@
                        + decimal(height as nat),
                ),
            },
        }
    }
}

/// Whether the timestamp check needs DarkFi's verdict on the block's
/// timestamp: only when the block is not the genesis block and its
/// predecessor is available.
pub fn timestamp_check_needs_rules(height: u32, has_prev_block: bool) -> (r: bool)
    ensures
        r == (height != 0 && has_prev_block),
{
    height != 0 && has_prev_block
}

/// The heights whose timestamps DarkFi's median rule reads for a block at
/// `height`: the `window` blocks just before it, as the range from the first
/// to one past the last, or `None` while fewer than `window` blocks precede it.
pub fn timestamp_window(height: u32, window: u32) -> (r: Option<(u32, u32)>)
    ensures
        r == (if height < window {
            None
        } else {
            Some(((height - window) as u32, height))
        }),
{
    if height < window {
        None
    } else {
        Some((height - window, height))
    }
}

/// DarkFi's timestamp verdict for a block at `height` with timestamp
/// `timestamp`: later than the genesis block's timestamp and, once a full
/// window of `window` predecessors exists, no earlier than the median of
/// their timestamps (`window_median`, meaningful only in that case).
pub fn timestamp_rules_verdict(
    timestamp: u64,
    genesis_timestamp: u64,
    height: u32,
    window: u32,
    window_median: u64,
) -> (r: bool)
    ensures
        r == (timestamp > genesis_timestamp && (height < window || timestamp >= window_median)),
{
    timestamp > genesis_timestamp && (height < window || timestamp >= window_median)
}

/// Checks a block's timestamp against DarkFi's current timestamp rules,
/// whose verdict on the block (following `prev_block`, its predecessor at
/// height `height - 1`) is `rules_verdict`, or `None` when it could not be
/// established.
pub fn check_timestamp_sanity(
    height: u32,
    prev_block: Option<&BlockSummary>,
    rules_verdict: Option<bool>,
) -> (r: CheckResult)
    ensures
        timestamp_sanity_check(r, height, opt_block(prev_block), rules_verdict),
{
    if height == 0 {
        return CheckResult::unknown(
            "timestamp_sanity",
            "N/A \u{2014} genesis block has no predecessor",
        );
    }
    match prev_block {
        None => {
            let mut m = String::from_str("could not fetch block ");
            push_decimal(&mut m, (height - 1) as u128);
            m.append(" to verify");
            assert(m@ =~= "could not fetch block "@ + decimal((height - 1) as nat) + " to verify"@);
            CheckResult::unknown("timestamp_sanity", m.as_str())
        },
        Some(_) => match rules_verdict {
            Some(true) => CheckResult::confirmed_pass(
                "timestamp_sanity",
                "timestamp satisfies DarkFi rules",
            ),
            Some(false) => CheckResult::new(
                "timestamp_sanity",
                CheckState::Fail,
                Confidence::High,
                "timestamp violates the current DarkFi timestamp sanity rules",
            ),
            None => {
                let m = labelled_number(
                    "could not fetch the blocks DarkFi's timestamp rules need for block ",
                    height as u128,
                );
                CheckResult::unknown("timestamp_sanity", m.as_str())
            },
        },
    }
}

/// The check that the transaction's hash matches the requested one, up to
/// ASCII case.
pub open spec fn tx_hash_check(check: CheckResult, requested: Seq<char>, tx: TxSummary) -> bool {
    if eq_ignore_ascii_case_spec(requested, tx.hash@) {
        check_is(
            check,
            "tx_hash"@,
            CheckState::Pass,
            Confidence::Confirmed,
            "transaction hash matches the requested hash"@,
        )
    } else {
        check_is(
            check,
            "tx_hash"@,
            CheckState::Fail,
            Confidence::Confirmed,
            "transaction hash "@ + tx.hash@ + " does not match requested "@ + requested,
        )
    }
}

/// Verifies that the transaction returned by the node has the requested hash
/// (compared without regard to ASCII case).
pub fn check_tx_hash(requested_hash: &str, tx: &TxSummary) -> (r: CheckResult)
    ensures
        tx_hash_check(r, requested_hash@, *tx),
{
    if eq_ignore_ascii_case(requested_hash, tx.hash.as_str()) {
        CheckResult::confirmed_pass("tx_hash", "transaction hash matches the requested hash")
    } else {
        let mut m = String::from_str("transaction hash ");
        m.append(tx.hash.as_str());
        m.append(" does not match requested ");
        m.append(requested_hash);
        assert(m@ =~= "transaction hash "@ + tx.hash@ + " does not match requested "@
            + requested_hash@);
        CheckResult::confirmed_fail("tx_hash", m.as_str())
    }
}

/// The check that the transaction's calls form a structurally valid call
/// forest.
pub open spec fn tx_call_tree_check(check: CheckResult, tx: TxSummary) -> bool {
    if tx.call_forest_valid {
        check_is(
            check,
            "call_tree"@,
            CheckState::Pass,
            Confidence::Confirmed,
            "transaction call forest is structurally valid ("@ + decimal(tx.calls@.len())
                + " call(s))"@,
        )
    } else {
        check_is(
            check,
            "call_tree"@,
            CheckState::Fail,
            Confidence::Confirmed,
            "transaction call forest is structurally invalid ("@ + decimal(tx.calls@.len())
                + " call(s))"@,
        )
    }
}

/// Reports DarkFi's call-forest integrity verdict on the transaction's calls.
pub fn check_tx_call_tree(tx: &TxSummary) -> (r: CheckResult)
    ensures
        tx_call_tree_check(r, *tx),
        (r.state == CheckState::Pass) == tx.call_forest_valid,
{
    if tx.call_forest_valid {
        let mut m = String::from_str("transaction call forest is structurally valid (");
        push_decimal(&mut m, tx.calls.len() as u128);
        m.append(" call(s))");
        assert(m@ =~= "transaction call forest is structurally valid ("@ + decimal(
            tx.calls@.len(),
        ) + " call(s))"@);
        CheckResult::confirmed_pass("call_tree", m.as_str())
    } else {
        let mut m = String::from_str("transaction call forest is structurally invalid (");
        push_decimal(&mut m, tx.calls.len() as u128);
        m.append(" call(s))");
        assert(m@ =~= "transaction call forest is structurally invalid ("@ + decimal(
            tx.calls@.len(),
        ) + " call(s))"@);
        CheckResult::confirmed_fail("call_tree", m.as_str())
    }
}

/// The check that each call has a proof group.
pub open spec fn tx_proof_alignment_check(check: CheckResult, tx: TxSummary) -> bool {
    if tx.calls.len() == tx.proof_groups {
        check_is(
            check,
            "calls_proofs"@,
            CheckState::Pass,
            Confidence::Confirmed,
            "call count matches proof-group count ("@ + decimal(tx.calls@.len()) + ")"@,
        )
    } else {
        check_is(
            check,
            "calls_proofs"@,
            CheckState::Fail,
            Confidence::Confirmed,
            "call count "@ + decimal(tx.calls@.len()) + " does not match proof-group count "@
                + decimal(tx.proof_groups as nat),
        )
    }
}

/// Verifies that the transaction has as many proof groups as calls.
pub fn check_tx_proof_alignment(tx: &TxSummary) -> (r: CheckResult)
    ensures
        tx_proof_alignment_check(r, *tx),
        (r.state == CheckState::Pass) == (tx.calls@.len() == tx.proof_groups),
{
    if tx.calls.len() == tx.proof_groups {
        let mut m = String::from_str("call count matches proof-group count (");
        push_decimal(&mut m, tx.calls.len() as u128);
        m.append(")");
        assert(m@ =~= "call count matches proof-group count ("@ + decimal(tx.calls@.len()) + ")"@);
        CheckResult::confirmed_pass("calls_proofs", m.as_str())
    } else {
        let mut m = String::from_str("call count ");
        push_decimal(&mut m, tx.calls.len() as u128);
        m.append(" does not match proof-group count ");
        push_decimal(&mut m, tx.proof_groups as u128);
        assert(m@ =~= "call count "@ + decimal(tx.calls@.len()) + " does not match proof-group count "@
            + decimal(tx.proof_groups as nat));
        CheckResult::confirmed_fail("calls_proofs", m.as_str())
    }
}

/// The check that each call has a signature group.
pub open spec fn tx_signature_alignment_check(check: CheckResult, tx: TxSummary) -> bool {
    if tx.calls.len() == tx.signature_groups {
        check_is(
            check,
            "calls_signatures"@,
            CheckState::Pass,
            Confidence::Confirmed,
            "call count matches signature-group count ("@ + decimal(tx.calls@.len()) + ")"@,
        )
    } else {
        check_is(
            check,
            "calls_signatures"@,
            CheckState::Fail,
            Confidence::Confirmed,
            "call count "@ + decimal(tx.calls@.len()) + " does not match signature-group count "@
                + decimal(tx.signature_groups as nat),
        )
    }
}

/// Verifies that the transaction has as many signature groups as calls.
pub fn check_tx_signature_alignment(tx: &TxSummary) -> (r: CheckResult)
    ensures
        tx_signature_alignment_check(r, *tx),
        (r.state == CheckState::Pass) == (tx.calls@.len() == tx.signature_groups),
{
    if tx.calls.len() == tx.signature_groups {
        let mut m = String::from_str("call count matches signature-group count (");
        push_decimal(&mut m, tx.calls.len() as u128);
        m.append(")");
        assert(m@ =~= "call count matches signature-group count ("@ + decimal(tx.calls@.len())
            + ")"@);
        CheckResult::confirmed_pass("calls_signatures", m.as_str())
    } else {
        let mut m = String::from_str("call count ");
        push_decimal(&mut m, tx.calls.len() as u128);
        m.append(" does not match signature-group count ");
        push_decimal(&mut m, tx.signature_groups as u128);
        assert(m@ =~= "call count "@ + decimal(tx.calls@.len())
            + " does not match signature-group count "@ + decimal(tx.signature_groups as nat));
        CheckResult::confirmed_fail("calls_signatures", m.as_str())
    }
}

/// The views of a list of strings.
pub open spec fn lines_view(lines: Seq<String>) -> Seq<Seq<char>> {
    lines.map_values(|l: String| l@)
}

/// The human-readable lines of a list of checks, one per check.
pub open spec fn check_lines(checks: Seq<CheckResult>) -> Seq<Seq<char>> {
    checks.map_values(|c: CheckResult| human_line_text(c))
}

/// Inspects a block: checks that it reports the requested height, that it
/// links to its predecessor and that its timestamp satisfies DarkFi's rules
/// (DarkFi's verdict being `rules_verdict`), and
/// summarizes those checks.
pub fn inspect_block(
    height: u32,
    block: &BlockSummary,
    prev_block: Option<&BlockSummary>,
    rules_verdict: Option<bool>,
) -> (r: BlockInspection)
    ensures
        r.height == block.height,
        r.hash@ == block.hash@,
        r.previous@ == block.previous@,
        r.txs == block.txs,
        r.checks@.len() == 3,
        block_height_check(r.checks@[0], height, *block),
        chain_linkage_check(r.checks@[1], height, *block, opt_block(prev_block)),
        timestamp_sanity_check(r.checks@[2], height, opt_block(prev_block), rules_verdict),
        r.summary.summarizes(r.checks@),
{
    let height_check = check_block_height(height, block);
    let linkage_check = check_chain_linkage(height, block, prev_block);
    let timestamp_check = check_timestamp_sanity(height, prev_block, rules_verdict);
    let checks = vec![height_check, linkage_check, timestamp_check];
    let summary = DiagnosticSummary::from_checks(checks.as_slice());
    BlockInspection {
        height: block.height,
        hash: block.hash.clone(),
        previous: block.previous.clone(),
        txs: block.txs,
        checks,
        summary,
    }
}

/// The human-readable report of a block inspection: the block's height,
/// hash, predecessor and transaction count, an empty line, then one line per
/// check.
pub open spec fn block_report_text(bi: BlockInspection) -> Seq<Seq<char>> {
    seq![
        "Block "@ + decimal(bi.height as nat),
        "  Hash:     "@ + bi.hash@,
        "  Previous: "@ + bi.previous@,
        "  Txs:      "@ + decimal(bi.txs as nat),
        Seq::<char>::empty(),
    ] + check_lines(bi.checks@)
}

fn push_check_lines(out: &mut Vec<String>, checks: &Vec<CheckResult>)
    ensures
        lines_view(final(out)@) == lines_view(old(out)@) + check_lines(checks@),
{
    let n = checks.len();
    let mut k: usize = 0;
    while k < n
        invariant
            n == checks@.len(),
            k <= n,
            lines_view(out@) == lines_view(old(out)@) + check_lines(checks@.take(k as int)),
        decreases n - k,
    {
        let ghost old_out = out@;
        out.push(checks[k].human_line());
        proof {
            let t = checks@.take(k + 1);
            assert(t.drop_last() =~= checks@.take(k as int));
            assert(check_lines(t) =~= check_lines(checks@.take(k as int)).push(human_line_text(checks@[k as int])));
            assert(lines_view(out@) =~= lines_view(old_out).push(out@[out@.len() - 1]@));
        }
        k = k + 1;
        assert(lines_view(out@) =~= lines_view(old(out)@) + check_lines(checks@.take(k as int)));
    }
    assert(checks@.take(n as int) =~= checks@);
}

fn labelled_number(label: &str, n: u128) -> (s: String)
    ensures
        s@ == label@ + decimal(n as nat),
{
    let mut s = String::from_str(label);
    push_decimal(&mut s, n);
    s
}

fn labelled_text(label: &str, t: &str) -> (s: String)
    ensures
        s@ == label@ + t@,
{
    let mut s = String::from_str(label);
    s.append(t);
    s
}

impl BlockInspection {
    /// The lines printed for this inspection.
    pub fn human_lines(&self) -> (lines: Vec<String>)
        ensures
            lines_view(lines@) == block_report_text(*self),
    {
        let mut lines: Vec<String> = Vec::new();
        lines.push(labelled_number("Block ", self.height as u128));
        lines.push(labelled_text("  Hash:     ", self.hash.as_str()));
        lines.push(labelled_text("  Previous: ", self.previous.as_str()));
        lines.push(labelled_number("  Txs:      ", self.txs as u128));
        lines.push(String::new());
        assert(lines_view(lines@) =~= seq![
            "Block "@ + decimal(self.height as nat),
            "  Hash:     "@ + self.hash@,
            "  Previous: "@ + self.previous@,
            "  Txs:      "@ + decimal(self.txs as nat),
            Seq::<char>::empty(),
        ]);
        push_check_lines(&mut lines, &self.checks);
        lines
    }
}

/// What the inspector reports of one call of a transaction.
#[derive(Debug)]
pub struct TxCallInspection {
    pub index: usize,
    pub contract_id: String,
    pub function_code: Option<u8>,
    pub data_length: usize,
    pub parent: Option<usize>,
    pub children: Vec<usize>,
}

/// The report of inspecting one transaction.
#[derive(Debug)]
pub struct TxInspection {
    pub hash: String,
    pub calls: usize,
    pub proofs: usize,
    pub signatures: usize,
    pub call_details: Vec<TxCallInspection>,
    pub summary: DiagnosticSummary,
    pub checks: Vec<CheckResult>,
}

/// `detail` reports the call at `index`: its contract, its function code
/// (the first byte of its data, if any), its data length, its parent and its
/// children.
pub open spec fn reports_call(detail: TxCallInspection, index: int, call: TxCall) -> bool {
    &&& detail.index == index
    &&& detail.contract_id@ == call.contract_id@
    &&& detail.function_code == (if call.data@.len() > 0 {
        Some(call.data@[0])
    } else {
        None
    })
    &&& detail.data_length == call.data@.len()
    &&& detail.parent == call.parent_index
    &&& detail.children@ == call.children_indexes@
}

fn copy_indexes(v: &Vec<usize>) -> (r: Vec<usize>)
    ensures
        r@ == v@,
{
    let mut r: Vec<usize> = Vec::new();
    let n = v.len();
    let mut k: usize = 0;
    while k < n
        invariant
            n == v@.len(),
            k <= n,
            r@ == v@.take(k as int),
        decreases n - k,
    {
        r.push(v[k]);
        k = k + 1;
        assert(r@ =~= v@.take(k as int));
    }
    assert(v@.take(n as int) =~= v@);
    r
}

fn inspect_call(index: usize, call: &TxCall) -> (d: TxCallInspection)
    ensures
        reports_call(d, index as int, *call),
{
    let function_code = if call.data.len() > 0 {
        Some(call.data[0])
    } else {
        None
    };
    TxCallInspection {
        index,
        contract_id: call.contract_id.clone(),
        function_code,
        data_length: call.data.len(),
        parent: call.parent_index,
        children: copy_indexes(&call.children_indexes),
    }
}

/// Inspects a transaction: checks its hash against the requested one, the
/// structure of its call forest, and its proof and signature groups against
/// its calls, reports each call and summarizes the checks.
pub fn inspect_tx(requested_hash: &str, tx: &TxSummary) -> (r: TxInspection)
    ensures
        r.hash@ == tx.hash@,
        r.calls == tx.calls@.len(),
        r.proofs == tx.proof_groups,
        r.signatures == tx.signature_groups,
        r.call_details@.len() == tx.calls@.len(),
        forall|i: int|
            0 <= i < tx.calls@.len() ==> reports_call(
                #[trigger] r.call_details@[i],
                i,
                tx.calls@[i],
            ),
        r.checks@.len() == 4,
        tx_hash_check(r.checks@[0], requested_hash@, *tx),
        tx_call_tree_check(r.checks@[1], *tx),
        tx_proof_alignment_check(r.checks@[2], *tx),
        tx_signature_alignment_check(r.checks@[3], *tx),
        r.summary.summarizes(r.checks@),
{
    let checks = vec![
        check_tx_hash(requested_hash, tx),
        check_tx_call_tree(tx),
        check_tx_proof_alignment(tx),
        check_tx_signature_alignment(tx),
    ];
    let n = tx.calls.len();
    let mut call_details: Vec<TxCallInspection> = Vec::new();
    let mut k: usize = 0;
    while k < n
        invariant
            n == tx.calls@.len(),
            k <= n,
            call_details@.len() == k,
            forall|i: int|
                0 <= i < k ==> reports_call(#[trigger] call_details@[i], i, tx.calls@[i]),
        decreases n - k,
    {
        call_details.push(inspect_call(k, &tx.calls[k]));
        k = k + 1;
    }
    let summary = DiagnosticSummary::from_checks(checks.as_slice());
    TxInspection {
        hash: tx.hash.clone(),
        calls: n,
        proofs: tx.proof_groups,
        signatures: tx.signature_groups,
        call_details,
        summary,
        checks,
    }
}

/// The function-code line of a call report.
pub open spec fn function_line(code: Option<u8>) -> Seq<char> {
    match code {
        Some(c) => "    Function:  "@ + decimal(c as nat),
        None => "    Function:  <none>"@,
    }
}

/// The six lines printed for one call of a transaction.
pub open spec fn call_report_text(d: TxCallInspection) -> Seq<Seq<char>> {
    seq![
        "  Call "@ + decimal(d.index as nat),
        "    Contract:  "@ + d.contract_id@,
        function_line(d.function_code),
        "    Data:      "@ + decimal(d.data_length as nat) + " byte(s)"@,
        "    Parent:    "@ + debug_option(
            match d.parent {
                Some(p) => Some(p as nat),
                None => None,
            },
        ),
        "    Children:  "@ + debug_list(usize_nats(d.children@)),
    ]
}

/// The lines printed for a list of calls, six per call in order.
pub open spec fn calls_report_text(ds: Seq<TxCallInspection>) -> Seq<Seq<char>>
    decreases ds.len(),
{
    if ds.len() == 0 {
        Seq::empty()
    } else {
        calls_report_text(ds.drop_last()) + call_report_text(ds.last())
    }
}

/// The human-readable report of a transaction inspection: its hash and
/// counts, six lines per call, then one line per check.
pub open spec fn tx_report_text(ti: TxInspection) -> Seq<Seq<char>> {
    seq![
        "Transaction "@ + ti.hash@,
        "  Calls:      "@ + decimal(ti.calls as nat),
        "  Proof sets: "@ + decimal(ti.proofs as nat),
        "  Sig sets:   "@ + decimal(ti.signatures as nat),
    ] + calls_report_text(ti.call_details@) + check_lines(ti.checks@)
}

fn call_report_lines(d: &TxCallInspection) -> (lines: Vec<String>)
    ensures
        lines_view(lines@) == call_report_text(*d),
{
    let mut lines: Vec<String> = Vec::new();
    lines.push(labelled_number("  Call ", d.index as u128));
    lines.push(labelled_text("    Contract:  ", d.contract_id.as_str()));
    match d.function_code {
        Some(c) => lines.push(labelled_number("    Function:  ", c as u128)),
        None => lines.push(String::from_str("    Function:  <none>")),
    }
    let mut data = labelled_number("    Data:      ", d.data_length as u128);
    data.append(" byte(s)");
    lines.push(data);
    let mut parent = String::from_str("    Parent:    ");
    let parent_wide: Option<u128> = match d.parent {
        Some(p) => Some(p as u128),
        None => None,
    };
    push_debug_option(&mut parent, parent_wide);
    lines.push(parent);
    let mut children = String::from_str("    Children:  ");
    let wide = widen_usizes(d.children.as_slice());
    push_debug_list(&mut children, wide.as_slice());
    lines.push(children);
    proof {
        let pn: Option<nat> = match d.parent {
            Some(p) => Some(p as nat),
            None => None,
        };
        let wn: Option<nat> = match parent_wide {
            Some(v) => Some(v as nat),
            None => None,
        };
        assert(pn == wn);
    }
    assert(lines_view(lines@) =~= call_report_text(*d));
    lines
}

impl TxInspection {
    /// The lines printed for this inspection.
    pub fn human_lines(&self) -> (lines: Vec<String>)
        ensures
            lines_view(lines@) == tx_report_text(*self),
    {
        let mut lines: Vec<String> = Vec::new();
        lines.push(labelled_text("Transaction ", self.hash.as_str()));
        lines.push(labelled_number("  Calls:      ", self.calls as u128));
        lines.push(labelled_number("  Proof sets: ", self.proofs as u128));
        lines.push(labelled_number("  Sig sets:   ", self.signatures as u128));
        let ghost head = seq![
            "Transaction "@ + self.hash@,
            "  Calls:      "@ + decimal(self.calls as nat),
            "  Proof sets: "@ + decimal(self.proofs as nat),
            "  Sig sets:   "@ + decimal(self.signatures as nat),
        ];
        assert(lines_view(lines@) =~= head);
        let n = self.call_details.len();
        let mut k: usize = 0;
        while k < n
            invariant
                n == self.call_details@.len(),
                k <= n,
                lines_view(lines@) == head + calls_report_text(self.call_details@.take(k as int)),
            decreases n - k,
        {
            let mut call_lines = call_report_lines(&self.call_details[k]);
            let ghost before = lines@;
            let ghost added = call_lines@;
            lines.append(&mut call_lines);
            proof {
                let t = self.call_details@.take(k + 1);
                assert(t.drop_last() =~= self.call_details@.take(k as int));
                assert(t.last() == self.call_details@[k as int]);
                assert(lines_view(before + added) =~= lines_view(before) + lines_view(added));
            }
            k = k + 1;
        }
        assert(self.call_details@.take(n as int) =~= self.call_details@);
        push_check_lines(&mut lines, &self.checks);
        lines
    }
}

/// DarkFi's verdict matters to the timestamp check only when the check needs
/// it: for the genesis block or a missing predecessor, the check is the same
/// whatever the verdict.
pub proof fn lemma_timestamp_check_ignores_unneeded_verdict(
    check: CheckResult,
    height: u32,
    prev: Option<BlockSummary>,
    verdict_a: Option<bool>,
    verdict_b: Option<bool>,
)
    requires
        !(height != 0 && prev is Some),
    ensures
        timestamp_sanity_check(check, height, prev, verdict_a) == timestamp_sanity_check(
            check,
            height,
            prev,
            verdict_b,
        ),
{
}

/// When the check needs DarkFi's verdict and has it, the check passes exactly
/// when the rules hold; a pass is always confirmed and a failure has high
/// confidence.
pub proof fn lemma_timestamp_check_follows_verdict(
    check: CheckResult,
    height: u32,
    prev: Option<BlockSummary>,
    rules_satisfied: bool,
)
    requires
        height != 0,
        prev is Some,
        timestamp_sanity_check(check, height, prev, Some(rules_satisfied)),
    ensures
        (check.state == CheckState::Pass) == rules_satisfied,
        check.state == CheckState::Pass ==> check.confidence == Confidence::Confirmed,
        check.state != CheckState::Pass ==> check.state == CheckState::Fail && check.confidence
            == Confidence::High,
{
}

/// A transaction always passes the hash check against its own hash.
pub proof fn lemma_tx_hash_check_accepts_own_hash(check: CheckResult, tx: TxSummary)
    requires
        tx_hash_check(check, tx.hash@, tx),
    ensures
        check.state == CheckState::Pass,
{
    lemma_hash_comparison_reflexive_symmetric(tx.hash@, tx.hash@);
}

/// Comparing hashes up to ASCII case is reflexive and symmetric, so the hash
/// check accepts the transaction's own hash and does not depend on which side
/// is the requested one.
pub proof fn lemma_hash_comparison_reflexive_symmetric(a: Seq<char>, b: Seq<char>)
    ensures
        eq_ignore_ascii_case_spec(a, a),
        eq_ignore_ascii_case_spec(a, b) == eq_ignore_ascii_case_spec(b, a),
{
    if eq_ignore_ascii_case_spec(a, b) {
        assert forall|i: int| 0 <= i < b.len() implies #[trigger] crate::text::ascii_folded(b[i])
            == crate::text::ascii_folded(a[i]) by {
            assert(crate::text::ascii_folded(a[i]) == crate::text::ascii_folded(b[i]));
        }
    }
    if eq_ignore_ascii_case_spec(b, a) {
        assert forall|i: int| 0 <= i < a.len() implies #[trigger] crate::text::ascii_folded(a[i])
            == crate::text::ascii_folded(b[i]) by {
            assert(crate::text::ascii_folded(b[i]) == crate::text::ascii_folded(a[i]));
        }
    }
}

/// The block-height check passes exactly when the block reports the
/// requested height, and otherwise fails, always with confirmed confidence.
pub proof fn lemma_block_height_check_passes_iff_heights_equal(
    check: CheckResult,
    requested: u32,
    block: BlockSummary,
)
    requires
        block_height_check(check, requested, block),
    ensures
        check.name@ == "block_height"@,
        check.confidence == Confidence::Confirmed,
        (check.state == CheckState::Pass) <==> block.height == requested,
        (check.state == CheckState::Fail) <==> block.height != requested,
{
}

/// The chain-linkage check passes exactly when the block is not the genesis
/// block, its predecessor is available and the predecessor's hash is the
/// block's recorded previous hash; it fails exactly when the predecessor is
/// available and the hashes differ; otherwise it is unknown.
pub proof fn lemma_chain_linkage_check_passes_iff_hashes_link(
    check: CheckResult,
    height: u32,
    block: BlockSummary,
    prev: Option<BlockSummary>,
)
    requires
        chain_linkage_check(check, height, block, prev),
    ensures
        check.name@ == "chain_linkage"@,
        (check.state == CheckState::Pass) <==> (height != 0 && prev is Some && prev->0.hash@
            == block.previous@),
        (check.state == CheckState::Fail) <==> (height != 0 && prev is Some && prev->0.hash@
            != block.previous@),
        (check.state == CheckState::Unknown) <==> (height == 0 || prev is None),
        check.state != CheckState::Unknown ==> check.confidence == Confidence::Confirmed,
{
}

/// The call-tree check passes exactly when DarkFi found the call forest
/// structurally valid, and otherwise fails, always with confirmed confidence.
pub proof fn lemma_call_tree_check_passes_iff_forest_valid(check: CheckResult, tx: TxSummary)
    requires
        tx_call_tree_check(check, tx),
    ensures
        check.name@ == "call_tree"@,
        check.confidence == Confidence::Confirmed,
        (check.state == CheckState::Pass) <==> tx.call_forest_valid,
        (check.state == CheckState::Fail) <==> !tx.call_forest_valid,
{
}

/// The proof-alignment check passes exactly when there are as many proof
/// groups as calls, and otherwise fails, always with confirmed confidence.
pub proof fn lemma_proof_alignment_passes_iff_counts_equal(check: CheckResult, tx: TxSummary)
    requires
        tx_proof_alignment_check(check, tx),
    ensures
        check.name@ == "calls_proofs"@,
        check.confidence == Confidence::Confirmed,
        (check.state == CheckState::Pass) <==> tx.calls@.len() == tx.proof_groups,
        (check.state == CheckState::Fail) <==> tx.calls@.len() != tx.proof_groups,
{
}

/// The signature-alignment check passes exactly when there are as many
/// signature groups as calls, and otherwise fails, always with confirmed
/// confidence.
pub proof fn lemma_signature_alignment_passes_iff_counts_equal(check: CheckResult, tx: TxSummary)
    requires
        tx_signature_alignment_check(check, tx),
    ensures
        check.name@ == "calls_signatures"@,
        check.confidence == Confidence::Confirmed,
        (check.state == CheckState::Pass) <==> tx.calls@.len() == tx.signature_groups,
        (check.state == CheckState::Fail) <==> tx.calls@.len() != tx.signature_groups,
{
}

/// The hash check passes exactly when the requested hash has the
/// transaction's hash length and agrees with it character by character up to
/// ASCII case; in particular a hash of another length always fails.
pub proof fn lemma_tx_hash_check_passes_iff_same_up_to_case(
    check: CheckResult,
    requested: Seq<char>,
    tx: TxSummary,
)
    requires
        tx_hash_check(check, requested, tx),
    ensures
        check.name@ == "tx_hash"@,
        check.confidence == Confidence::Confirmed,
        (check.state == CheckState::Pass) <==> (requested.len() == tx.hash@.len() && forall|i: int|
            0 <= i < requested.len() ==> #[trigger] crate::text::ascii_folded(requested[i])
                == crate::text::ascii_folded(tx.hash@[i])),
        requested.len() != tx.hash@.len() ==> check.state == CheckState::Fail,
        requested == tx.hash@ ==> check.state == CheckState::Pass,
{
}

/// The block report has four header lines, an empty line, then exactly one
/// line per check, in order.
pub proof fn lemma_block_report_shape(bi: BlockInspection)
    ensures
        block_report_text(bi).len() == 5 + bi.checks@.len(),
        block_report_text(bi)[0] == "Block "@ + decimal(bi.height as nat),
        block_report_text(bi)[4] == Seq::<char>::empty(),
        forall|i: int|
            0 <= i < bi.checks@.len() ==> #[trigger] block_report_text(bi)[5 + i]
                == human_line_text(bi.checks@[i]),
{
    let t = block_report_text(bi);
    assert forall|i: int| 0 <= i < bi.checks@.len() implies #[trigger] t[5 + i] == human_line_text(
        bi.checks@[i],
    ) by {
        assert(t[5 + i] == check_lines(bi.checks@)[i]);
    }
}

/// The lines of a list of call reports: six per call.
pub proof fn lemma_calls_report_six_lines_each(ds: Seq<TxCallInspection>)
    ensures
        calls_report_text(ds).len() == 6 * ds.len(),
        forall|i: int, k: int|
            0 <= i < ds.len() && 0 <= k < 6 ==> #[trigger] calls_report_text(ds)[6 * i + k]
                == call_report_text(ds[i])[k],
    decreases ds.len(),
{
    if ds.len() > 0 {
        let rest = ds.drop_last();
        lemma_calls_report_six_lines_each(rest);
        let t = calls_report_text(ds);
        assert forall|i: int, k: int| 0 <= i < ds.len() && 0 <= k < 6 implies #[trigger] t[6 * i
            + k] == call_report_text(ds[i])[k] by {
            if i < ds.len() - 1 {
                assert(ds[i] == rest[i]);
                assert(6 * i + k < 6 * rest.len()) by (nonlinear_arith)
                    requires
                        i < rest.len(),
                        k < 6,
                ;
                assert(t[6 * i + k] == calls_report_text(rest)[6 * i + k]);
            } else {
                assert(6 * i + k == 6 * rest.len() + k);
            }
        }
    }
}

/// The transaction report has four header lines, then six lines per call in
/// order, then exactly one line per check in order.
pub proof fn lemma_tx_report_shape(ti: TxInspection)
    ensures
        tx_report_text(ti).len() == 4 + 6 * ti.call_details@.len() + ti.checks@.len(),
        tx_report_text(ti)[0] == "Transaction "@ + ti.hash@,
        forall|i: int, k: int|
            0 <= i < ti.call_details@.len() && 0 <= k < 6 ==> #[trigger] tx_report_text(ti)[4 + 6
                * i + k] == call_report_text(ti.call_details@[i])[k],
        forall|i: int|
            0 <= i < ti.checks@.len() ==> #[trigger] tx_report_text(ti)[4 + 6
                * ti.call_details@.len() + i] == human_line_text(ti.checks@[i]),
{
    lemma_calls_report_six_lines_each(ti.call_details@);
    let t = tx_report_text(ti);
    let n = ti.call_details@.len();
    assert forall|i: int, k: int| 0 <= i < n && 0 <= k < 6 implies #[trigger] t[4 + 6 * i + k]
        == call_report_text(ti.call_details@[i])[k] by {
        assert(6 * i + k < 6 * n) by (nonlinear_arith)
            requires
                i < n,
                k < 6,
        ;
        assert(t[4 + 6 * i + k] == calls_report_text(ti.call_details@)[6 * i + k]);
    }
    assert forall|i: int| 0 <= i < ti.checks@.len() implies #[trigger] t[4 + 6 * n + i]
        == human_line_text(ti.checks@[i]) by {
        assert(t[4 + 6 * n + i] == check_lines(ti.checks@)[i]);
    }
}

} // verus!
