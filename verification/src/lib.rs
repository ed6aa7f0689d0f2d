//! Diagnostic logic of a DarkFi node inspector: check results, their
//! summaries and verdicts, block and transaction checks, node status,
//! notification decoding decisions and the RPC retry policy, together with
//! the exact text the tool prints for each of them.
pub mod diagnose;
pub mod inspect;
pub mod rpc;
pub mod status;
pub mod text;
