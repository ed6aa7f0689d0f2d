use darkfi_inspect::inspect::BlockSummary;
use darkfi_inspect::rpc::{
    after_failed_attempt, attempt_failure_line, block_notification_summary,
    connection_closed_message, deserialize_failure, notification_payload,
    proposal_notification_summary, subscription_kind, subscription_line,
    tx_notification_summary, Notification, RetryDecision, SubscriptionKind, MAX_ATTEMPTS,
};
use darkfi_inspect::status::{Channel, NodeStatus, P2pInfo};
use darkfi_inspect::text::{decimal_string, eq_ignore_ascii_case, push_signed_decimal};

fn info() -> P2pInfo {
    P2pInfo {
        channels: vec![
            Channel { url: "tcp+tls://neo.not.org:18340/".to_string(), session: "outbound".to_string(), id: 7 },
            Channel { url: "tcp+tls://195.3.221.59:18340/".to_string(), session: "inbound".to_string(), id: 12 },
        ],
        outbound_slots: vec![0, 1, 2, 3],
    }
}

#[test]
fn status_depth_and_exit_code() {
    let s = NodeStatus::from_observations(45757, "0910".to_string(), 45763, &info(), 1);
    assert_eq!(s.confirmation_depth, 5);
    assert_eq!(s.peers_connected, 2);
    assert_eq!(s.peers_slots, 4);
    assert_eq!(s.exit_code(), 0);
    let lagging = NodeStatus::from_observations(45757, "0910".to_string(), 45760, &info(), 1);
    assert_eq!(lagging.confirmation_depth, 2);
    assert_eq!(lagging.exit_code(), 1);
    let ahead = NodeStatus::from_observations(10, "x".to_string(), 3, &info(), 1);
    assert_eq!(ahead.confirmation_depth, -8);
    assert_eq!(ahead.exit_code(), 1);
    let lines = ahead.human_lines();
    assert_eq!(lines[0], "Last confirmed block: 10 (x)");
    assert_eq!(lines[1], "Best fork next height: 3");
    assert_eq!(lines[2], "Confirmation depth: -8");
    assert_eq!(lines[3], "Peers: 2/4 connected");
    assert_eq!(lines[4], "RPC latency: 1 ms");
}

#[test]
fn peers_listing() {
    let lines = info().human_lines();
    assert_eq!(lines.len(), 4);
    assert_eq!(lines[0], "2 peer(s) connected:");
    assert_eq!(lines[1], " [7] tcp+tls://neo.not.org:18340/ (outbound)");
    assert_eq!(lines[2], " [12] tcp+tls://195.3.221.59:18340/ (inbound)");
    assert_eq!(lines[3], "4 outbound slot(s): [0, 1, 2, 3]");
    let empty = P2pInfo { channels: vec![], outbound_slots: vec![] };
    assert_eq!(empty.human_lines(), vec!["0 peer(s) connected:", "0 outbound slot(s): []"]);
}

#[test]
fn retry_schedule() {
    assert_eq!(MAX_ATTEMPTS, 3);
    assert_eq!(after_failed_attempt(1), RetryDecision::RetryAfterDelay { next_attempt: 2 });
    assert_eq!(after_failed_attempt(2), RetryDecision::RetryAfterDelay { next_attempt: 3 });
    assert_eq!(after_failed_attempt(3), RetryDecision::GiveUp);
    assert_eq!(attempt_failure_line(2, "connection refused"), "attempt 2/3 failed: connection refused");
}

#[test]
fn notification_payload_cases() {
    let ok = Ok(Notification { params: Some(vec![Some("AAEC".to_string()), None]) });
    assert_eq!(notification_payload(&ok), Ok("AAEC".to_string()));
    let no_params = Ok(Notification { params: None });
    assert_eq!(
        notification_payload(&no_params),
        Err("(no params array in notification)".to_string())
    );
    let not_string = Ok(Notification { params: Some(vec![None]) });
    assert_eq!(
        notification_payload(&not_string),
        Err("(no base64 payload in notification)".to_string())
    );
    let empty = Ok(Notification { params: Some(vec![]) });
    assert_eq!(
        notification_payload(&empty),
        Err("(no base64 payload in notification)".to_string())
    );
    let bad: Result<Notification, String> = Err("EOF while parsing".to_string());
    assert_eq!(
        notification_payload(&bad),
        Err("(failed to parse notification JSON: EOF while parsing)".to_string())
    );
}

#[test]
fn tx_notification_cases() {
    let ok = Ok(Notification { params: Some(vec![Some("8daf".to_string())]) });
    assert_eq!(tx_notification_summary(&ok), "tx_hash=8daf");
    let none = Ok(Notification { params: Some(vec![]) });
    assert_eq!(tx_notification_summary(&none), "(no tx hash in notification)");
    let no_params = Ok(Notification { params: None });
    assert_eq!(tx_notification_summary(&no_params), "(no params array in notification)");
    let bad: Result<Notification, String> = Err("e".to_string());
    assert_eq!(tx_notification_summary(&bad), "(failed to parse notification JSON: e)");
}

#[test]
fn block_and_proposal_summaries() {
    let b = BlockSummary {
        height: 45757,
        hash: "0910".to_string(),
        previous: "ffff".to_string(),
        txs: 3,
    };
    assert_eq!(block_notification_summary(&b), "height=45757 hash=0910 txs=3");
    assert_eq!(proposal_notification_summary("abcd", &b), "height=45757 hash=abcd txs=3");
    assert_eq!(deserialize_failure("BlockInfo", "io error"), "(failed to deserialize BlockInfo: io error)");
}

#[test]
fn subscriptions() {
    assert_eq!(subscription_kind("blockchain.subscribe_blocks"), SubscriptionKind::Blocks);
    assert_eq!(subscription_kind("blockchain.subscribe_proposals"), SubscriptionKind::Proposals);
    assert_eq!(subscription_kind("blockchain.subscribe_txs"), SubscriptionKind::Txs);
    assert_eq!(subscription_kind("ping"), SubscriptionKind::Raw);
    assert_eq!(subscription_line("BLOCK", "height=1"), "[BLOCK] height=1");
    assert_eq!(connection_closed_message("TX"), "[TX] connection closed by darkfid");
}

#[test]
fn text_helpers() {
    assert_eq!(decimal_string(0), "0");
    assert_eq!(decimal_string(1786734000000), "1786734000000");
    assert_eq!(decimal_string(u128::MAX), u128::MAX.to_string());
    let mut s = String::new();
    push_signed_decimal(&mut s, i64::MIN);
    assert_eq!(s, i64::MIN.to_string());
    assert!(eq_ignore_ascii_case("AbC-é", "aBc-é"));
    assert!(!eq_ignore_ascii_case("é", "É"));
    assert!(!eq_ignore_ascii_case("ab", "abc"));
}
