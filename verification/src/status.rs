//! The node status snapshot combined from several RPC replies, the peer
//! listing, and the exit code that tells scripts whether the node looks healthy.
use vstd::prelude::*;

use crate::inspect::lines_view;
use crate::text::{
    debug_list, decimal, push_debug_list, push_decimal, push_signed_decimal, signed_decimal,
    u64_nats, widen_u64s,
};

verus! {

/// One connected peer channel as the node reports it.
#[derive(Debug)]
pub struct Channel {
    pub url: String,
    pub session: String,
    pub id: u64,
}

/// The node's peer-to-peer state: its channels and its outbound slots.
#[derive(Debug)]
pub struct P2pInfo {
    pub channels: Vec<Channel>,
    pub outbound_slots: Vec<u64>,
}

/// The confirmation depth a healthy node shows: DarkFi confirms blocks five deep.
pub const HEALTHY_CONFIRMATION_DEPTH: i64 = 5;

/// A health snapshot combined from the last confirmed block, the best fork's
/// next height and the peer-to-peer state.
#[derive(Debug)]
pub struct NodeStatus {
    pub last_confirmed_height: u32,
    pub last_confirmed_hash: String,
    pub best_fork_next_height: u32,
    pub confirmation_depth: i64,
    pub peers_connected: usize,
    pub peers_slots: usize,
    pub rpc_latency_ms: u128,
}

/// The distance between the best fork's next height and the last confirmed
/// height, not counting the next block itself.
pub open spec fn confirmation_depth_of(last_confirmed_height: u32, best_fork_next_height: u32) -> int {
    (best_fork_next_height - last_confirmed_height) - 1
}

impl NodeStatus {
    /// Combines the replies into a status snapshot.
    pub fn from_observations(
        last_confirmed_height: u32,
        last_confirmed_hash: String,
        best_fork_next_height: u32,
        info: &P2pInfo,
        rpc_latency_ms: u128,
    ) -> (r: Self)
        ensures
            r.last_confirmed_height == last_confirmed_height,
            r.last_confirmed_hash@ == last_confirmed_hash@,
            r.best_fork_next_height == best_fork_next_height,
            r.confirmation_depth == confirmation_depth_of(
                last_confirmed_height,
                best_fork_next_height,
            ),
            r.last_confirmed_height + r.confirmation_depth + 1 == r.best_fork_next_height,
            r.peers_connected == info.channels@.len(),
            r.peers_slots == info.outbound_slots@.len(),
            r.rpc_latency_ms == rpc_latency_ms,
    {
        NodeStatus {
            last_confirmed_height,
            last_confirmed_hash,
            best_fork_next_height,
            confirmation_depth: (best_fork_next_height as i64 - last_confirmed_height as i64) - 1,
            peers_connected: info.channels.len(),
            peers_slots: info.outbound_slots.len(),
            rpc_latency_ms,
        }
    }

    /// The process exit code for scripts: 0 when the confirmation depth is
    /// the healthy one, 1 otherwise.
    pub fn exit_code(&self) -> (code: i32)
        ensures
            code == (if self.confirmation_depth == HEALTHY_CONFIRMATION_DEPTH {
                0i32
            } else {
                1i32
            }),
    {
        if self.confirmation_depth != HEALTHY_CONFIRMATION_DEPTH {
            1
        } else {
            0
        }
    }

    /// The lines printed for this status.
    pub fn human_lines(&self) -> (lines: Vec<String>)
        ensures
            lines_view(lines@) == status_report_text(*self),
    {
        let mut lines: Vec<String> = Vec::new();
        let mut l1 = String::from_str("Last confirmed block: ");
        push_decimal(&mut l1, self.last_confirmed_height as u128);
        l1.append(" (");
        l1.append(self.last_confirmed_hash.as_str());
        l1.append(")");
        lines.push(l1);
        let mut l2 = String::from_str("Best fork next height: ");
        push_decimal(&mut l2, self.best_fork_next_height as u128);
        lines.push(l2);
        let mut l3 = String::from_str("Confirmation depth: ");
        push_signed_decimal(&mut l3, self.confirmation_depth);
        lines.push(l3);
        let mut l4 = String::from_str("Peers: ");
        push_decimal(&mut l4, self.peers_connected as u128);
        l4.append("/");
        push_decimal(&mut l4, self.peers_slots as u128);
        l4.append(" connected");
        lines.push(l4);
        let mut l5 = String::from_str("RPC latency: ");
        push_decimal(&mut l5, self.rpc_latency_ms);
        l5.append(" ms");
        lines.push(l5);
        assert(lines_view(lines@) =~= status_report_text(*self));
        lines
    }
}

/// The human-readable status report.
pub open spec fn status_report_text(s: NodeStatus) -> Seq<Seq<char>> {
    seq![
        "Last confirmed block: "@ + decimal(s.last_confirmed_height as nat) + " ("@
            + s.last_confirmed_hash@ + ")"@,
        "Best fork next height: "@ + decimal(s.best_fork_next_height as nat),
        "Confirmation depth: "@ + signed_decimal(s.confirmation_depth as int),
        "Peers: "@ + decimal(s.peers_connected as nat) + "/"@ + decimal(s.peers_slots as nat)
            + " connected"@,
        "RPC latency: "@ + decimal(s.rpc_latency_ms as nat) + " ms"@,
    ]
}

/// The line printed for one peer channel.
pub open spec fn channel_line(ch: Channel) -> Seq<char> {
    " ["@ + decimal(ch.id as nat) + "] "@ + ch.url@ + " ("@ + ch.session@ + ")"@
}

/// The lines printed for a list of channels, one per channel.
pub open spec fn channel_lines(chs: Seq<Channel>) -> Seq<Seq<char>> {
    chs.map_values(|ch: Channel| channel_line(ch))
}

/// The human-readable peer listing: the number of connected peers, one line
/// per channel, then the outbound slots.
pub open spec fn peers_report_text(info: P2pInfo) -> Seq<Seq<char>> {
    seq![decimal(info.channels@.len()) + " peer(s) connected:"@] + channel_lines(info.channels@)
        + seq![
        decimal(info.outbound_slots@.len()) + " outbound slot(s): "@ + debug_list(
            u64_nats(info.outbound_slots@),
        ),
    ]
}

fn channel_report_line(ch: &Channel) -> (s: String)
    ensures
        s@ == channel_line(*ch),
{
    let mut s = String::from_str(" [");
    push_decimal(&mut s, ch.id as u128);
    s.append("] ");
    s.append(ch.url.as_str());
    s.append(" (");
    s.append(ch.session.as_str());
    s.append(")");
    assert(s@ =~= channel_line(*ch));
    s
}

impl P2pInfo {
    /// The lines printed for the peer listing.
    pub fn human_lines(&self) -> (lines: Vec<String>)
        ensures
            lines_view(lines@) == peers_report_text(*self),
            lines@.len() == self.channels@.len() + 2,
            forall|i: int|
                0 <= i < self.channels@.len() ==> #[trigger] lines@[i + 1]@ == channel_line(
                    self.channels@[i],
                ),
    {
        let mut lines: Vec<String> = Vec::new();
        let mut head = String::new();
        push_decimal(&mut head, self.channels.len() as u128);
        head.append(" peer(s) connected:");
        lines.push(head);
        let ghost first = lines_view(lines@);
        let n = self.channels.len();
        let mut k: usize = 0;
        while k < n
            invariant
                n == self.channels@.len(),
                k <= n,
                lines_view(lines@) == first + channel_lines(self.channels@.take(k as int)),
            decreases n - k,
        {
            let ghost old_lines = lines@;
            lines.push(channel_report_line(&self.channels[k]));
            proof {
                assert(channel_lines(self.channels@.take(k + 1)) =~= channel_lines(
                    self.channels@.take(k as int),
                ).push(channel_line(self.channels@[k as int])));
                assert(lines_view(lines@) =~= lines_view(old_lines).push(lines@[lines@.len() - 1]@));
            }
            k = k + 1;
        }
        assert(self.channels@.take(n as int) =~= self.channels@);
        let mut tail = String::new();
        push_decimal(&mut tail, self.outbound_slots.len() as u128);
        tail.append(" outbound slot(s): ");
        let wide = widen_u64s(self.outbound_slots.as_slice());
        push_debug_list(&mut tail, wide.as_slice());
        let ghost before_tail = lines@;
        lines.push(tail);
        assert(lines_view(lines@) =~= lines_view(before_tail).push(lines@[lines@.len() - 1]@));
        assert(lines_view(lines@) =~= peers_report_text(*self));
        assert forall|i: int| 0 <= i < self.channels@.len() implies #[trigger] lines@[i + 1]@
            == channel_line(self.channels@[i]) by {
            assert(lines_view(lines@)[i + 1] == lines@[i + 1]@);
            assert(peers_report_text(*self)[i + 1] == channel_lines(self.channels@)[i]);
        }
        lines
    }
}

/// A node's status is healthy (exit code 0) exactly when the best fork's next
/// height is six above the last confirmed height: five confirmations plus
/// the block being built.
pub proof fn lemma_healthy_exactly_six_ahead(last_confirmed_height: u32, best_fork_next_height: u32)
    ensures
        (confirmation_depth_of(last_confirmed_height, best_fork_next_height)
            == HEALTHY_CONFIRMATION_DEPTH) <==> best_fork_next_height == last_confirmed_height + 6,
{
}

/// The confirmation depth counts the blocks between the last confirmed block
/// and the best fork's next block: adding it and one to the last confirmed
/// height gives back the best fork's next height, so one more block on the
/// best fork deepens it by exactly one and one more confirmed block makes it
/// one shallower.
pub proof fn lemma_confirmation_depth_counts_blocks_between(
    last_confirmed_height: u32,
    best_fork_next_height: u32,
)
    ensures
        last_confirmed_height + confirmation_depth_of(last_confirmed_height, best_fork_next_height)
            + 1 == best_fork_next_height,
        best_fork_next_height < u32::MAX ==> confirmation_depth_of(
            last_confirmed_height,
            (best_fork_next_height + 1) as u32,
        ) == confirmation_depth_of(last_confirmed_height, best_fork_next_height) + 1,
        last_confirmed_height < u32::MAX ==> confirmation_depth_of(
            (last_confirmed_height + 1) as u32,
            best_fork_next_height,
        ) == confirmation_depth_of(last_confirmed_height, best_fork_next_height) - 1,
{
}

/// The peer listing has one header line, then exactly one line per channel in
/// order, each naming that channel's id, url and session, then the outbound
/// slots line.
pub proof fn lemma_peer_listing_lists_every_channel(info: P2pInfo)
    ensures
        peers_report_text(info).len() == info.channels@.len() + 2,
        peers_report_text(info)[0] == decimal(info.channels@.len()) + " peer(s) connected:"@,
        forall|i: int|
            0 <= i < info.channels@.len() ==> #[trigger] peers_report_text(info)[i + 1] == " ["@
                + decimal(info.channels@[i].id as nat) + "] "@ + info.channels@[i].url@ + " ("@
                + info.channels@[i].session@ + ")"@,
        peers_report_text(info)[info.channels@.len() + 1int] == decimal(info.outbound_slots@.len())
            + " outbound slot(s): "@ + debug_list(u64_nats(info.outbound_slots@)),
{
    let t = peers_report_text(info);
    let n = info.channels@.len();
    assert forall|i: int| 0 <= i < n implies #[trigger] t[i + 1] == " ["@ + decimal(
        info.channels@[i].id as nat,
    ) + "] "@ + info.channels@[i].url@ + " ("@ + info.channels@[i].session@ + ")"@ by {
        assert(t[i + 1] == channel_lines(info.channels@)[i]);
    }
}

/// The status report has five lines, and the confirmation-depth line shows the
/// distance between the best fork's next height and the last confirmed height,
/// less one.
pub proof fn lemma_status_report_shows_depth(s: NodeStatus)
    requires
        s.last_confirmed_height + s.confirmation_depth + 1 == s.best_fork_next_height,
    ensures
        status_report_text(s).len() == 5,
        status_report_text(s)[2] == "Confirmation depth: "@ + signed_decimal(
            s.best_fork_next_height - s.last_confirmed_height - 1,
        ),
{
}

} // verus!
