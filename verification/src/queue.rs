//! Outcome tags and the queue entry persisted for each decided candidate.

use vstd::prelude::*;
use crate::post::CandidateModel;
use crate::post::HivePost;

verus! {

/// The closed set of classification tags. Exactly one is assigned per
/// candidate; `Invalid` (trigger keyword absent) is never persisted.
#[derive(Clone, Copy, Debug, PartialEq, Eq, Structural)]
pub enum StakingQueueAction {
    /// Eligible: stake the reward and comment.
    StakeAndComment,
    /// The service account itself lacks token for the transfer.
    NotEnoughTokenInAccount,
    /// The author's staked balance earns no quota at all.
    NotEnoughStake,
    /// The author's quota for the trailing window is already consumed.
    SharesExceeded,
    /// The author or the parent author is on the ban list.
    Blocked,
    /// The body contains a disallowed keyword.
    BlockedWord,
    /// The author replies to themselves, or the parent is missing.
    SelfReward,
    /// The trigger keyword is absent; the candidate is discarded.
    Invalid,
}

/// Mathematical model of a queue entry: every string field as a character
/// sequence.
pub ghost struct QueueEntryModel {
    pub to: Seq<char>,
    pub amount: Seq<char>,
    pub symbol: Seq<char>,
    pub from: Seq<char>,
    pub permlink: Seq<char>,
    pub from_permlink: Seq<char>,
    pub from_tx: Seq<char>,
    pub action: StakingQueueAction,
}

/// One decision record handed to the downstream disbursement queue.
/// Created once per non-`Invalid` candidate, never mutated.
#[derive(Debug)]
pub struct StakingQueueEntry {
    pub to: String,
    pub amount: String,
    pub symbol: String,
    pub from: String,
    pub permlink: String,
    pub from_permlink: String,
    pub from_tx: String,
    pub action: StakingQueueAction,
}

impl View for StakingQueueEntry {
    type V = QueueEntryModel;

    open spec fn view(&self) -> QueueEntryModel {
        QueueEntryModel {
            to: self.to@,
            amount: self.amount@,
            symbol: self.symbol@,
            from: self.from@,
            permlink: self.permlink@,
            from_permlink: self.from_permlink@,
            from_tx: self.from_tx@,
            action: self.action,
        }
    }
}

/// The queue entry a candidate gives rise to: the reward goes from the
/// candidate's author to the parent author, keyed by the originating
/// transaction id.
pub open spec fn spec_entry_of(
    c: CandidateModel,
    amount: Seq<char>,
    symbol: Seq<char>,
    action: StakingQueueAction,
) -> QueueEntryModel {
    QueueEntryModel {
        to: c.parent_author,
        amount: amount,
        symbol: symbol,
        from: c.author,
        permlink: c.parent_permlink,
        from_permlink: c.permlink,
        from_tx: c.tx_id,
        action: action,
    }
}

impl StakingQueueEntry {
    /// Builds the entry for a candidate, with the configured reward amount
    /// and token symbol.
    pub fn from(
        post: &HivePost,
        reward_amount: &str,
        token_symbol: &str,
        action: StakingQueueAction,
    ) -> (e: StakingQueueEntry)
        ensures
            e@ == spec_entry_of(post@, reward_amount@, token_symbol@, action),
    {
        StakingQueueEntry {
            to: post.parent_author.clone(),
            amount: String::from_str(reward_amount),
            symbol: String::from_str(token_symbol),
            from: post.author.clone(),
            permlink: post.parent_permlink.clone(),
            from_permlink: post.permlink.clone(),
            from_tx: post.tx_id.clone(),
            action: action,
        }
    }
}

/// Connection settings for the document store; consumed by the unverified
/// transport layer.
#[derive(Debug)]
pub struct DatabaseOptions {
    pub uri: String,
    pub db_name: String,
    pub collection_name: String,
    pub queue_collection_name: String,
}

} // verus!
