use beerlover::beerlover::Beerlover;
use beerlover::post::HivePost;
use beerlover::queue::StakingQueueAction;
use beerlover::queue::StakingQueueEntry;

fn engine(banned: Vec<&str>, words: Vec<&str>, trigger: &str, ratio: u64) -> Beerlover {
    Beerlover::new(
        banned.into_iter().map(str::to_string).collect(),
        words.into_iter().map(str::to_string).collect(),
        trigger.to_string(),
        ratio,
    )
}

fn post(author: &str, parent_author: &str, parent_permlink: &str, body: &str, tx: &str) -> HivePost {
    HivePost {
        author: author.to_string(),
        permlink: "re-post1".to_string(),
        parent_author: parent_author.to_string(),
        parent_permlink: parent_permlink.to_string(),
        body: body.to_string(),
        tx_id: tx.to_string(),
        action: StakingQueueAction::Invalid,
    }
}

#[test]
fn eligible_candidate_is_staked() {
    let b = engine(vec![], vec![], "!BEER", 24);
    let p = post("alice", "bob", "post1", "Great post !BEER", "tx1");
    assert_eq!(b.maxium_shares(48), 2);
    assert_eq!(b.classify(&p, 48, 0, 0), StakingQueueAction::StakeAndComment);
}

#[test]
fn zero_stake_is_not_enough() {
    let b = engine(vec![], vec![], "!BEER", 24);
    let p = post("alice", "bob", "post1", "Great post !BEER", "tx1");
    assert_eq!(b.classify(&p, 0, 0, 0), StakingQueueAction::NotEnoughStake);
}

#[test]
fn self_reply_is_self_reward_whatever_the_balance() {
    let b = engine(vec![], vec![], "!BEER", 24);
    let p = post("alice", "alice", "post1", "Great post !BEER", "tx1");
    assert_eq!(b.classify(&p, 0, 0, 0), StakingQueueAction::SelfReward);
    assert_eq!(b.classify(&p, 48, 0, 0), StakingQueueAction::SelfReward);
    assert_eq!(b.classify(&p, u64::MAX, 0, 0), StakingQueueAction::SelfReward);
}

#[test]
fn missing_parent_is_self_reward() {
    let b = engine(vec![], vec![], "!BEER", 24);
    let no_parent_author = post("alice", "", "post1", "cheers !BEER", "tx1");
    assert_eq!(b.classify(&no_parent_author, 48, 0, 0), StakingQueueAction::SelfReward);
    let no_parent_permlink = post("alice", "bob", "", "cheers !BEER", "tx1");
    assert_eq!(b.classify(&no_parent_permlink, 48, 0, 0), StakingQueueAction::SelfReward);
}

#[test]
fn banned_author_is_blocked() {
    let b = engine(vec!["mallory"], vec![], "!BEER", 24);
    let p = post("mallory", "bob", "post1", "hi !BEER", "tx1");
    assert_eq!(b.classify(&p, 48, 0, 0), StakingQueueAction::Blocked);
}

#[test]
fn banned_parent_is_blocked() {
    let b = engine(vec!["mallory"], vec![], "!BEER", 24);
    let p = post("alice", "mallory", "post1", "hi !BEER", "tx1");
    assert_eq!(b.classify(&p, 48, 0, 0), StakingQueueAction::Blocked);
}

#[test]
fn ban_takes_precedence_over_self_reward() {
    let b = engine(vec!["mallory"], vec![], "!BEER", 24);
    let p = post("mallory", "mallory", "post1", "hi !BEER", "tx1");
    assert_eq!(b.classify(&p, 48, 0, 0), StakingQueueAction::Blocked);
}

#[test]
fn disallowed_word_is_blocked_word() {
    let b = engine(vec![], vec!["!PIZZA", "!LUV", "!ENGAGE"], "!BEER", 24);
    let p = post("alice", "bob", "post1", "have one !BEER and one !PIZZA", "tx1");
    assert_eq!(b.classify(&p, 48, 0, 0), StakingQueueAction::BlockedWord);
}

#[test]
fn missing_trigger_is_invalid() {
    let b = engine(vec!["mallory"], vec!["!PIZZA"], "!BEER", 24);
    let p = post("alice", "bob", "post1", "no keyword here", "tx1");
    assert_eq!(b.classify(&p, 48, 0, 0), StakingQueueAction::Invalid);
    assert!(b.process_candidate(&p, false, 48, 0, 0, "0.100", "BEER").is_none());
}

#[test]
fn quota_consumed_is_shares_exceeded() {
    let b = engine(vec![], vec![], "!BEER", 24);
    let p = post("alice", "bob", "post1", "hi !BEER", "tx1");
    // stake 48 at ratio 24 earns 2 shares
    assert_eq!(b.classify(&p, 48, 1, 0), StakingQueueAction::StakeAndComment);
    assert_eq!(b.classify(&p, 48, 1, 1), StakingQueueAction::SharesExceeded);
    assert_eq!(b.classify(&p, 48, 2, 0), StakingQueueAction::SharesExceeded);
    assert_eq!(b.classify(&p, 48, 0, 5), StakingQueueAction::SharesExceeded);
}

#[test]
fn quota_stays_exhausted_while_counts_grow() {
    let b = engine(vec![], vec![], "!BEER", 24);
    let p = post("alice", "bob", "post1", "hi !BEER", "tx1");
    assert_eq!(b.classify(&p, 48, 2, 0), StakingQueueAction::SharesExceeded);
    assert_eq!(b.classify(&p, 48, 2, 1), StakingQueueAction::SharesExceeded);
    assert_eq!(b.classify(&p, 48, 3, 4), StakingQueueAction::SharesExceeded);
}

#[test]
fn share_computation_truncates() {
    let b = engine(vec![], vec![], "!BEER", 24);
    assert_eq!(b.maxium_shares(48), 2);
    assert_eq!(b.maxium_shares(47), 1);
    assert_eq!(b.maxium_shares(23), 0);
    assert_eq!(b.maxium_shares(0), 0);
}

#[test]
fn early_outcome_defers_only_quota() {
    let b = engine(vec!["mallory"], vec!["!PIZZA"], "!BEER", 24);
    let clean = post("alice", "bob", "post1", "hi !BEER", "tx1");
    assert_eq!(b.early_outcome(&clean), None);
    let blocked = post("mallory", "bob", "post1", "hi !BEER", "tx1");
    assert_eq!(b.early_outcome(&blocked), Some(StakingQueueAction::Blocked));
    let wordy = post("alice", "bob", "post1", "hi !BEER !PIZZA", "tx1");
    assert_eq!(b.early_outcome(&wordy), Some(StakingQueueAction::BlockedWord));
    let own = post("alice", "alice", "post1", "hi !BEER", "tx1");
    assert_eq!(b.early_outcome(&own), Some(StakingQueueAction::SelfReward));
    let silent = post("alice", "bob", "post1", "hi", "tx1");
    assert_eq!(b.early_outcome(&silent), Some(StakingQueueAction::Invalid));
}

#[test]
fn processed_transaction_yields_nothing_again() {
    let b = engine(vec![], vec![], "!BEER", 24);
    let p = post("alice", "bob", "post1", "hi !BEER", "tx1");
    assert!(b.process_candidate(&p, true, 48, 0, 0, "0.100", "BEER").is_none());
    assert!(b.process_candidate(&p, false, 48, 0, 0, "0.100", "BEER").is_some());
}

#[test]
fn queue_entry_carries_the_decision() {
    let b = engine(vec![], vec![], "!BEER", 24);
    let p = post("alice", "bob", "post1", "hi !BEER", "tx7");
    let e = b.process_candidate(&p, false, 48, 0, 0, "0.100", "BEER").unwrap();
    assert_eq!(e.from, "alice");
    assert_eq!(e.to, "bob");
    assert_eq!(e.amount, "0.100");
    assert_eq!(e.symbol, "BEER");
    assert_eq!(e.permlink, "post1");
    assert_eq!(e.from_permlink, "re-post1");
    assert_eq!(e.from_tx, "tx7");
    assert_eq!(e.action, StakingQueueAction::StakeAndComment);
}

#[test]
fn entry_builder_maps_fields() {
    let p = post("carol", "dave", "topic", "hi !BEER", "tx9");
    let e = StakingQueueEntry::from(&p, "0.500", "BEER", StakingQueueAction::SharesExceeded);
    assert_eq!(e.from, "carol");
    assert_eq!(e.to, "dave");
    assert_eq!(e.permlink, "topic");
    assert_eq!(e.from_permlink, "re-post1");
    assert_eq!(e.from_tx, "tx9");
    assert_eq!(e.amount, "0.500");
    assert_eq!(e.symbol, "BEER");
    assert_eq!(e.action, StakingQueueAction::SharesExceeded);
}

#[test]
fn empty_trigger_matches_everything() {
    let b = engine(vec![], vec![], "", 24);
    let p = post("alice", "bob", "post1", "anything", "tx1");
    assert_eq!(b.classify(&p, 48, 0, 0), StakingQueueAction::StakeAndComment);
}
