use darkfi_inspect::diagnose::{CheckState, Confidence};
use darkfi_inspect::inspect::{
    check_block_height, check_chain_linkage, check_timestamp_sanity, check_tx_call_tree, check_tx_hash, timestamp_rules_verdict, timestamp_window,
    check_tx_proof_alignment, check_tx_signature_alignment, inspect_block, inspect_tx,
    timestamp_check_needs_rules, BlockSummary, TxCall, TxSummary,
};

fn block(height: u32, hash: &str, previous: &str) -> BlockSummary {
    BlockSummary { height, hash: hash.to_string(), previous: previous.to_string(), txs: 1 }
}

#[test]
fn block_height_pass_and_fail() {
    let b = block(44424, "h", "p");
    let ok = check_block_height(44424, &b);
    assert_eq!(ok.name, "block_height");
    assert_eq!(ok.state, CheckState::Pass);
    assert_eq!(ok.confidence, Confidence::Confirmed);
    assert_eq!(ok.message, "block reports requested height 44424");
    let bad = check_block_height(7, &b);
    assert_eq!(bad.state, CheckState::Fail);
    assert_eq!(bad.message, "block reports height 44424, requested 7");
}

#[test]
fn chain_linkage_cases() {
    let prev = block(44423, "916bb9", "aaaa");
    let cur = block(44424, "243e4a", "916bb9");
    let ok = check_chain_linkage(44424, &cur, Some(&prev));
    assert_eq!(ok.state, CheckState::Pass);
    assert_eq!(ok.confidence, Confidence::Confirmed);
    assert_eq!(ok.message, "previous hash matches block 44423");

    let other = block(44423, "ffff", "aaaa");
    let bad = check_chain_linkage(44424, &cur, Some(&other));
    assert_eq!(bad.state, CheckState::Fail);
    assert_eq!(
        bad.message,
        "previous hash does NOT match block 44423 - possible reorg or consensus anomaly"
    );

    let missing = check_chain_linkage(44424, &cur, None);
    assert_eq!(missing.state, CheckState::Unknown);
    assert_eq!(missing.confidence, Confidence::Unknown);
    assert_eq!(missing.message, "could not fetch block 44423 to verify");

    let genesis = check_chain_linkage(0, &cur, Some(&prev));
    assert_eq!(genesis.state, CheckState::Unknown);
    assert_eq!(genesis.message, "N/A - genesis block has no predecessor");
}

#[test]
fn timestamp_sanity_cases() {
    let prev = block(9, "a", "z");
    let r = check_timestamp_sanity(10, Some(&prev), Some(true));
    assert_eq!(r.name, "timestamp_sanity");
    assert_eq!(r.state, CheckState::Pass);
    assert_eq!(r.confidence, Confidence::Confirmed);
    assert_eq!(r.message, "timestamp satisfies DarkFi rules");

    let r = check_timestamp_sanity(10, Some(&prev), Some(false));
    assert_eq!(r.state, CheckState::Fail);
    assert_eq!(r.confidence, Confidence::High);
    assert_eq!(r.message, "timestamp violates the current DarkFi timestamp sanity rules");

    let r = check_timestamp_sanity(10, None, Some(true));
    assert_eq!(r.state, CheckState::Unknown);
    assert_eq!(r.confidence, Confidence::Unknown);
    assert_eq!(r.message, "could not fetch block 9 to verify");
    let r = check_timestamp_sanity(0, Some(&prev), Some(true));
    assert_eq!(r.state, CheckState::Unknown);
    assert_eq!(r.message, "N/A \u{2014} genesis block has no predecessor");

    let r = check_timestamp_sanity(10, Some(&prev), None);
    assert_eq!(r.state, CheckState::Unknown);
    assert_eq!(r.confidence, Confidence::Unknown);
    assert_eq!(
        r.message,
        "could not fetch the blocks DarkFi's timestamp rules need for block 10"
    );
}

#[test]
fn timestamp_rules_window_and_verdict() {
    assert_eq!(timestamp_window(5, 11), None);
    assert_eq!(timestamp_window(11, 11), Some((0, 11)));
    assert_eq!(timestamp_window(44424, 11), Some((44413, 44424)));
    // Not later than the genesis block.
    assert!(!timestamp_rules_verdict(100, 100, 1, 11, 0));
    // Fewer predecessors than the window: only the genesis rule applies.
    assert!(timestamp_rules_verdict(101, 100, 5, 11, 500));
    // Full window: compared with the median.
    assert!(timestamp_rules_verdict(500, 100, 20, 11, 500));
    assert!(!timestamp_rules_verdict(499, 100, 20, 11, 500));
}

#[test]
fn verdict_needed_only_with_predecessor() {
    assert!(timestamp_check_needs_rules(5, true));
    assert!(!timestamp_check_needs_rules(5, false));
    assert!(!timestamp_check_needs_rules(0, true));
}

#[test]
fn block_inspection_report() {
    let prev = block(44423, "916bb9", "aaaa");
    let cur = block(44424, "243e4a", "916bb9");
    let bi = inspect_block(44424, &cur, Some(&prev), Some(true));
    assert_eq!(bi.height, 44424);
    assert_eq!(bi.hash, "243e4a");
    assert_eq!(bi.previous, "916bb9");
    assert_eq!(bi.txs, 1);
    assert_eq!(bi.checks.len(), 3);
    assert_eq!(bi.checks[0].name, "block_height");
    assert_eq!(bi.checks[1].name, "chain_linkage");
    assert_eq!(bi.checks[2].name, "timestamp_sanity");
    assert_eq!((bi.summary.passed, bi.summary.failed, bi.summary.unknown), (3, 0, 0));
    let lines = bi.human_lines();
    assert_eq!(lines.len(), 8);
    assert_eq!(lines[0], "Block 44424");
    assert_eq!(lines[1], "  Hash:     243e4a");
    assert_eq!(lines[2], "  Previous: 916bb9");
    assert_eq!(lines[3], "  Txs:      1");
    assert_eq!(lines[4], "");
    assert_eq!(
        lines[5],
        "  block_height         [PASS] [CONFIRMED] block reports requested height 44424"
    );
    assert_eq!(
        lines[6],
        "  chain_linkage        [PASS] [CONFIRMED] previous hash matches block 44423"
    );
    assert_eq!(lines[7], "  timestamp_sanity     [PASS] [CONFIRMED] timestamp satisfies DarkFi rules");

    let genesis = inspect_block(0, &block(0, "g", "0"), None, None);
    assert_eq!(
        (genesis.summary.passed, genesis.summary.failed, genesis.summary.unknown),
        (1, 0, 2)
    );
}

fn sample_tx() -> TxSummary {
    TxSummary {
        hash: "8daf70f0".to_string(),
        calls: vec![
            TxCall {
                contract_id: "BZHKGQ26".to_string(),
                data: vec![2, 9, 9],
                parent_index: None,
                children_indexes: vec![1],
            },
            TxCall {
                contract_id: "Fd8kfCuq".to_string(),
                data: vec![],
                parent_index: Some(0),
                children_indexes: vec![],
            },
        ],
        call_forest_valid: true,
        proof_groups: 2,
        signature_groups: 1,
    }
}

#[test]
fn tx_checks() {
    let tx = sample_tx();
    let h = check_tx_hash("8DAF70F0", &tx);
    assert_eq!(h.state, CheckState::Pass);
    assert_eq!(h.message, "transaction hash matches the requested hash");
    let h = check_tx_hash("8daf70f1", &tx);
    assert_eq!(h.state, CheckState::Fail);
    assert_eq!(h.message, "transaction hash 8daf70f0 does not match requested 8daf70f1");
    let h = check_tx_hash("8daf70f", &tx);
    assert_eq!(h.state, CheckState::Fail);

    let p = check_tx_proof_alignment(&tx);
    assert_eq!(p.state, CheckState::Pass);
    assert_eq!(p.message, "call count matches proof-group count (2)");
    let s = check_tx_signature_alignment(&tx);
    assert_eq!(s.state, CheckState::Fail);
    assert_eq!(s.message, "call count 2 does not match signature-group count 1");
}

#[test]
fn tx_inspection_report() {
    let tx = sample_tx();
    let ti = inspect_tx("8daf70f0", &tx);
    assert_eq!(ti.hash, "8daf70f0");
    assert_eq!((ti.calls, ti.proofs, ti.signatures), (2, 2, 1));
    assert_eq!(ti.call_details[0].function_code, Some(2));
    assert_eq!(ti.call_details[0].data_length, 3);
    assert_eq!(ti.call_details[1].function_code, None);
    assert_eq!(ti.call_details[1].parent, Some(0));
    assert_eq!((ti.summary.passed, ti.summary.failed, ti.summary.unknown), (3, 1, 0));
    let lines = ti.human_lines();
    assert_eq!(lines.len(), 4 + 12 + 4);
    assert_eq!(lines[0], "Transaction 8daf70f0");
    assert_eq!(lines[1], "  Calls:      2");
    assert_eq!(lines[2], "  Proof sets: 2");
    assert_eq!(lines[3], "  Sig sets:   1");
    assert_eq!(lines[4], "  Call 0");
    assert_eq!(lines[5], "    Contract:  BZHKGQ26");
    assert_eq!(lines[6], "    Function:  2");
    assert_eq!(lines[7], "    Data:      3 byte(s)");
    assert_eq!(lines[8], "    Parent:    None");
    assert_eq!(lines[9], "    Children:  [1]");
    assert_eq!(lines[12], "    Function:  <none>");
    assert_eq!(lines[14], "    Parent:    Some(0)");
    assert_eq!(lines[15], "    Children:  []");
    assert_eq!(
        lines[16],
        "  tx_hash              [PASS] [CONFIRMED] transaction hash matches the requested hash"
    );
    assert_eq!(
        lines[17],
        "  call_tree            [PASS] [CONFIRMED] transaction call forest is structurally valid (2 call(s))"
    );
    let names: Vec<&str> = ti.checks.iter().map(|c| c.name.as_str()).collect();
    assert_eq!(names, ["tx_hash", "call_tree", "calls_proofs", "calls_signatures"]);
}

#[test]
fn timestamp_verdict_ignored_without_predecessor() {
    let a = check_timestamp_sanity(10, None, Some(true));
    let b = check_timestamp_sanity(10, None, None);
    assert_eq!((a.state, a.confidence, &a.message), (b.state, b.confidence, &b.message));
    let prev = block(9, "a", "z");
    let g1 = check_timestamp_sanity(0, Some(&prev), Some(true));
    let g2 = check_timestamp_sanity(0, Some(&prev), None);
    assert_eq!(g1.message, g2.message);
}

#[test]
fn call_tree_check() {
    let mut tx = sample_tx();
    let ok = check_tx_call_tree(&tx);
    assert_eq!(ok.name, "call_tree");
    assert_eq!(ok.state, CheckState::Pass);
    assert_eq!(ok.confidence, Confidence::Confirmed);
    tx.call_forest_valid = false;
    let bad = check_tx_call_tree(&tx);
    assert_eq!(bad.state, CheckState::Fail);
    assert_eq!(bad.confidence, Confidence::Confirmed);
    assert_eq!(bad.message, "transaction call forest is structurally invalid (2 call(s))");
    let ti = inspect_tx("8daf70f0", &tx);
    assert_eq!((ti.summary.passed, ti.summary.failed, ti.summary.unknown), (2, 2, 0));
}

#[test]
fn own_hash_always_accepted() {
    let tx = sample_tx();
    assert_eq!(check_tx_hash(&tx.hash, &tx).state, CheckState::Pass);
}
