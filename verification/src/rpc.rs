//! Decisions of the JSON-RPC client: when a failed call is retried, which
//! decoder a subscription uses, and what is reported for each notification.
use vstd::prelude::*;

use crate::inspect::BlockSummary;
use crate::text::{decimal, push_decimal};

verus! {

/// How many times a call is attempted in all before its error is returned.
pub const MAX_ATTEMPTS: u32 = 3;

/// How long to wait between two attempts, in milliseconds.
pub const RETRY_DELAY_MS: u64 = 500;

/// What to do after an attempt of a call failed.
#[derive(Debug, Clone, Copy, PartialEq, Eq, Structural)]
pub enum RetryDecision {
    /// Wait `RETRY_DELAY_MS` and make attempt `next_attempt`.
    RetryAfterDelay { next_attempt: u32 },
    /// Return the error of the attempt that just failed.
    GiveUp,
}

/// The decision after attempt `attempt` (counted from 1) failed.
pub open spec fn retry_decision(attempt: u32) -> RetryDecision {
    if attempt < MAX_ATTEMPTS {
        RetryDecision::RetryAfterDelay { next_attempt: (attempt + 1) as u32 }
    } else {
        RetryDecision::GiveUp
    }
}

/// Decides what follows a failed attempt: another attempt after a delay while
/// attempts remain, otherwise giving up with that attempt's error.
pub fn after_failed_attempt(attempt: u32) -> (d: RetryDecision)
    requires
        1 <= attempt <= MAX_ATTEMPTS,
    ensures
        d == retry_decision(attempt),
{
    if attempt < MAX_ATTEMPTS {
        RetryDecision::RetryAfterDelay { next_attempt: attempt + 1 }
    } else {
        RetryDecision::GiveUp
    }
}

/// How many attempts are made, starting at attempt `attempt`, when every
/// attempt fails.
pub open spec fn attempts_when_all_fail(attempt: u32) -> nat
    decreases MAX_ATTEMPTS - attempt,
{
    if 1 <= attempt <= MAX_ATTEMPTS {
        match retry_decision(attempt) {
            RetryDecision::RetryAfterDelay { next_attempt } => if next_attempt > attempt {
                1 + attempts_when_all_fail(next_attempt)
            } else {
                1
            },
            RetryDecision::GiveUp => 1,
        }
    } else {
        0
    }
}

/// A call whose attempts all fail is attempted exactly `MAX_ATTEMPTS` times
/// before its last error is returned; each retry moves to the next attempt.
pub proof fn lemma_call_gives_up_after_max_attempts()
    ensures
        attempts_when_all_fail(1) == MAX_ATTEMPTS,
        forall|a: u32|
            1 <= a < MAX_ATTEMPTS ==> #[trigger] retry_decision(a)
                == (RetryDecision::RetryAfterDelay { next_attempt: (a + 1) as u32 }),
        retry_decision(MAX_ATTEMPTS) == RetryDecision::GiveUp,
{
    assert(attempts_when_all_fail(3) == 1);
    assert(attempts_when_all_fail(2) == 2);
    assert(attempts_when_all_fail(1) == 3);
}

/// The line logged when an attempt fails: `attempt 2/3 failed: <error>`.
pub open spec fn attempt_failure_text(attempt: u32, error: Seq<char>) -> Seq<char> {
    "attempt "@ + decimal(attempt as nat) + "/"@ + decimal(MAX_ATTEMPTS as nat) + " failed: "@
        + error
}

/// The line logged when attempt `attempt` failed with `error`.
pub fn attempt_failure_line(attempt: u32, error: &str) -> (s: String)
    ensures
        s@ == attempt_failure_text(attempt, error@),
{
    let mut s = String::from_str("attempt ");
    push_decimal(&mut s, attempt as u128);
    s.append("/");
    push_decimal(&mut s, MAX_ATTEMPTS as u128);
    s.append(" failed: ");
    s.append(error);
    assert(s@ =~= attempt_failure_text(attempt, error@));
    s
}

/// What the client reads of a pushed JSON-RPC notification: its `params`
/// array (`None` when the field is missing or is not an array), with the text
/// of each element that is a JSON string and `None` for any other element.
#[derive(Debug)]
pub struct Notification {
    pub params: Option<Vec<Option<String>>>,
}

/// The text of the first parameter of a notification, when it is a string.
pub open spec fn first_text(params: Seq<Option<String>>) -> Option<Seq<char>> {
    if params.len() > 0 {
        match params[0] {
            Some(t) => Some(t@),
            None => None,
        }
    } else {
        None
    }
}

/// The message reported for a notification that is not valid JSON.
pub open spec fn parse_failure_text(error: Seq<char>) -> Seq<char> {
    "(failed to parse notification JSON: "@ + error + ")"@
}

fn parse_failure_message(error: &String) -> (s: String)
    ensures
        s@ == parse_failure_text(error@),
{
    let mut s = String::from_str("(failed to parse notification JSON: ");
    s.append(error.as_str());
    s.append(")");
    assert(s@ =~= parse_failure_text(error@));
    s
}

fn first_param(params: &Vec<Option<String>>) -> (r: Option<String>)
    ensures
        match r {
            Some(t) => first_text(params@) == Some(t@),
            None => first_text(params@) is None,
        },
{
    if params.len() == 0 {
        return None;
    }
    match &params[0] {
        Some(t) => Some(t.clone()),
        None => None,
    }
}

/// The base64 payload of a notification, or the message explaining why it
/// has none.
pub open spec fn payload_outcome(parsed: Result<Notification, String>) -> Result<
    Seq<char>,
    Seq<char>,
> {
    match parsed {
        Err(e) => Err(parse_failure_text(e@)),
        Ok(n) => match n.params {
            None => Err("(no params array in notification)"@),
            Some(ps) => match first_text(ps@) {
                Some(t) => Ok(t),
                None => Err("(no base64 payload in notification)"@),
            },
        },
    }
}

/// Takes the base64 payload out of a parsed notification (the parse error's
/// text when the line was not JSON): the first parameter when it is a string.
pub fn notification_payload(parsed: &Result<Notification, String>) -> (r: Result<String, String>)
    ensures
        match r {
            Ok(t) => payload_outcome(*parsed) == Ok::<Seq<char>, Seq<char>>(t@),
            Err(m) => payload_outcome(*parsed) == Err::<Seq<char>, Seq<char>>(m@),
        },
{
    match parsed {
        Err(e) => Err(parse_failure_message(e)),
        Ok(n) => match &n.params {
            None => Err(String::from_str("(no params array in notification)")),
            Some(ps) => match first_param(ps) {
                Some(t) => Ok(t),
                None => Err(String::from_str("(no base64 payload in notification)")),
            },
        },
    }
}

/// What is reported for a transaction notification: its hash, or the reason
/// it has none.
pub open spec fn tx_notification_text(parsed: Result<Notification, String>) -> Seq<char> {
    match parsed {
        Err(e) => parse_failure_text(e@),
        Ok(n) => match n.params {
            None => "(no params array in notification)"@,
            Some(ps) => match first_text(ps@) {
                Some(h) => "tx_hash="@ + h,
                None => "(no tx hash in notification)"@,
            },
        },
    }
}

/// Summarizes a transaction notification, whose payload is the plain hex
/// transaction hash.
pub fn tx_notification_summary(parsed: &Result<Notification, String>) -> (s: String)
    ensures
        s@ == tx_notification_text(*parsed),
{
    match parsed {
        Err(e) => parse_failure_message(e),
        Ok(n) => match &n.params {
            None => String::from_str("(no params array in notification)"),
            Some(ps) => match first_param(ps) {
                Some(h) => {
                    let mut s = String::from_str("tx_hash=");
                    s.append(h.as_str());
                    s
                },
                None => String::from_str("(no tx hash in notification)"),
            },
        },
    }
}

/// The summary of a block with a given hash: `height=.. hash=.. txs=..`.
pub open spec fn block_notification_text(height: u32, hash: Seq<char>, txs: usize) -> Seq<char> {
    "height="@ + decimal(height as nat) + " hash="@ + hash + " txs="@ + decimal(txs as nat)
}

fn block_line(height: u32, hash: &str, txs: usize) -> (s: String)
    ensures
        s@ == block_notification_text(height, hash@, txs),
{
    let mut s = String::from_str("height=");
    push_decimal(&mut s, height as u128);
    s.append(" hash=");
    s.append(hash);
    s.append(" txs=");
    push_decimal(&mut s, txs as u128);
    assert(s@ =~= block_notification_text(height, hash@, txs));
    s
}

/// Summarizes a pushed block: its height, its hash and its number of transactions.
pub fn block_notification_summary(block: &BlockSummary) -> (s: String)
    ensures
        s@ == block_notification_text(block.height, block.hash@, block.txs),
{
    block_line(block.height, block.hash.as_str(), block.txs)
}

/// Summarizes a pushed consensus proposal: the proposed block's height, the
/// proposal's hash and the block's number of transactions.
pub fn proposal_notification_summary(proposal_hash: &str, block: &BlockSummary) -> (s: String)
    ensures
        s@ == block_notification_text(block.height, proposal_hash@, block.txs),
{
    block_line(block.height, proposal_hash, block.txs)
}

/// The message reported when a payload cannot be deserialized as `kind`.
pub open spec fn deserialize_failure_text(kind: Seq<char>, error: Seq<char>) -> Seq<char> {
    "(failed to deserialize "@ + kind + ": "@ + error + ")"@
}

/// The message reported when a payload cannot be deserialized as `kind`.
pub fn deserialize_failure(kind: &str, error: &str) -> (s: String)
    ensures
        s@ == deserialize_failure_text(kind@, error@),
{
    let mut s = String::from_str("(failed to deserialize ");
    s.append(kind);
    s.append(": ");
    s.append(error);
    s.append(")");
    assert(s@ =~= deserialize_failure_text(kind@, error@));
    s
}

/// How the notifications of a subscription are decoded.
#[derive(Debug, Clone, Copy, PartialEq, Eq, Structural)]
pub enum SubscriptionKind {
    /// Each notification carries a serialized block.
    Blocks,
    /// Each notification carries a serialized consensus proposal.
    Proposals,
    /// Each notification carries a transaction hash.
    Txs,
    /// Notifications are shown as received.
    Raw,
}

/// The decoder used for a subscription method.
pub open spec fn subscription_kind_of(method: Seq<char>) -> SubscriptionKind {
    if method == "blockchain.subscribe_blocks"@ {
        SubscriptionKind::Blocks
    } else if method == "blockchain.subscribe_proposals"@ {
        SubscriptionKind::Proposals
    } else if method == "blockchain.subscribe_txs"@ {
        SubscriptionKind::Txs
    } else {
        SubscriptionKind::Raw
    }
}

fn str_is(s: &str, literal: &str) -> (r: bool)
    ensures
        r == (s@ == literal@),
{
    String::from_str(s) == String::from_str(literal)
}

/// Chooses how the notifications of subscription `method` are decoded.
pub fn subscription_kind(method: &str) -> (k: SubscriptionKind)
    ensures
        k == subscription_kind_of(method@),
{
    if str_is(method, "blockchain.subscribe_blocks") {
        SubscriptionKind::Blocks
    } else if str_is(method, "blockchain.subscribe_proposals") {
        SubscriptionKind::Proposals
    } else if str_is(method, "blockchain.subscribe_txs") {
        SubscriptionKind::Txs
    } else {
        SubscriptionKind::Raw
    }
}

/// The line printed for a notification of the subscription labelled `label`.
pub fn subscription_line(label: &str, summary: &str) -> (s: String)
    ensures
        s@ == "["@ + label@ + "] "@ + summary@,
{
    let mut s = String::from_str("[");
    s.append(label);
    s.append("] ");
    s.append(summary);
    s
}

/// The error reported when the node closes the subscription labelled `label`.
pub fn connection_closed_message(label: &str) -> (s: String)
    ensures
        s@ == "["@ + label@ + "] connection closed by darkfid"@,
{
    let mut s = String::from_str("[");
    s.append(label);
    s.append("] connection closed by darkfid");
    s
}

/// Each subscription method the tool knows gets its own decoder, and any
/// other method is shown raw.
pub proof fn lemma_subscription_methods_have_their_decoders(method: Seq<char>)
    ensures
        subscription_kind_of("blockchain.subscribe_blocks"@) == SubscriptionKind::Blocks,
        subscription_kind_of("blockchain.subscribe_proposals"@) == SubscriptionKind::Proposals,
        subscription_kind_of("blockchain.subscribe_txs"@) == SubscriptionKind::Txs,
        method != "blockchain.subscribe_blocks"@ && method != "blockchain.subscribe_proposals"@
            && method != "blockchain.subscribe_txs"@ ==> subscription_kind_of(method)
            == SubscriptionKind::Raw,
{
    reveal_strlit("blockchain.subscribe_blocks");
    reveal_strlit("blockchain.subscribe_proposals");
    reveal_strlit("blockchain.subscribe_txs");
    assert("blockchain.subscribe_blocks"@.len() != "blockchain.subscribe_proposals"@.len());
    assert("blockchain.subscribe_blocks"@.len() != "blockchain.subscribe_txs"@.len());
    assert("blockchain.subscribe_proposals"@.len() != "blockchain.subscribe_txs"@.len());
}

/// A notification has a payload exactly when it parsed, has a `params` array
/// and that array's first element is a string; the payload is that string.
/// Every other notification yields an error message instead.
pub proof fn lemma_payload_is_first_string_param(parsed: Result<Notification, String>)
    ensures
        payload_outcome(parsed) is Ok <==> (parsed is Ok && parsed->Ok_0.params is Some
            && parsed->Ok_0.params->0@.len() > 0 && parsed->Ok_0.params->0@[0] is Some),
        payload_outcome(parsed) is Ok ==> payload_outcome(parsed)->Ok_0
            == parsed->Ok_0.params->0@[0]->0@,
        parsed is Err ==> payload_outcome(parsed) == Err::<Seq<char>, Seq<char>>(
            "(failed to parse notification JSON: "@ + parsed->Err_0@ + ")"@,
        ),
{
}

/// A transaction notification is summarized as `tx_hash=` followed by its
/// first parameter exactly when that parameter is a string.
pub proof fn lemma_tx_notification_shows_first_string_param(parsed: Result<Notification, String>)
    ensures
        (parsed is Ok && parsed->Ok_0.params is Some && parsed->Ok_0.params->0@.len() > 0
            && parsed->Ok_0.params->0@[0] is Some) ==> tx_notification_text(parsed) == "tx_hash="@
            + parsed->Ok_0.params->0@[0]->0@,
{
}

/// A block's summary starts with its height and ends with its number of
/// transactions.
pub proof fn lemma_block_summary_fields(height: u32, hash: Seq<char>, txs: usize)
    ensures
        block_notification_text(height, hash, txs).take(7 + decimal(height as nat).len() as int)
            == "height="@ + decimal(height as nat),
        block_notification_text(height, hash, txs).skip(
            block_notification_text(height, hash, txs).len() - decimal(txs as nat).len(),
        ) == decimal(txs as nat),
{
    reveal_strlit("height=");
    let t = block_notification_text(height, hash, txs);
    assert(t.take(7 + decimal(height as nat).len() as int) =~= "height="@ + decimal(height as nat));
    assert(t.skip(t.len() - decimal(txs as nat).len()) =~= decimal(txs as nat));
}

} // verus!
