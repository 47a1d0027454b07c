//! Decision pipeline for a ledger stream monitor that rewards comments
//! carrying a trigger keyword.
//!
//! The library holds the verified core: extracting candidate comments from a
//! block's operation list, classifying each candidate into exactly one
//! outcome (ban lists, self-reference rules, and a stake-derived quota),
//! building idempotent queue entries, parsing and formatting the persisted
//! scan checkpoint, and the scanner's cursor state machine. All transport
//! (ledger RPC, balance RPC, document store, checkpoint file) lives outside
//! the library and hands it plain values.

pub mod beerlover;
pub mod checkpoint;
pub mod post;
pub mod queue;
pub mod scanner;
pub mod text;
