//! The decision core: candidate extraction from operation lists and the
//! eligibility engine that assigns exactly one outcome per candidate.

use vstd::prelude::*;
use crate::post::CandidateModel;
use crate::post::HivePost;
use crate::post::Operation;
use crate::post::OperationModel;
use crate::post::Transaction;
use crate::post::TransactionModel;
use crate::post::spec_complete;
use crate::post::spec_post_of;
use crate::queue::QueueEntryModel;
use crate::queue::StakingQueueAction;
use crate::queue::StakingQueueEntry;
use crate::queue::spec_entry_of;
use crate::text::contains_substr;
use crate::text::spec_contains;
use crate::text::str_eq;

verus! {

/// Mathematical model of the engine's configuration.
pub ghost struct PolicyModel {
    pub banned_accounts: Seq<Seq<char>>,
    pub banned_words: Seq<Seq<char>>,
    pub command: Seq<char>,
    pub share_ratio: u64,
}

/// The eligibility engine's configuration: ban lists, the trigger keyword
/// (`command`), and the share ratio that turns staked balance into quota.
/// Balances and the ratio are fixed-point token amounts in one common unit.
pub struct Beerlover {
    banned_accounts: Vec<String>,
    banned_words: Vec<String>,
    command: String,
    share_ratio: u64,
}

impl View for Beerlover {
    type V = PolicyModel;

    closed spec fn view(&self) -> PolicyModel {
        PolicyModel {
            banned_accounts: self.banned_accounts@.map_values(|s: String| s@),
            banned_words: self.banned_words@.map_values(|s: String| s@),
            command: self.command@,
            share_ratio: self.share_ratio,
        }
    }
}

/// `name` stands on the ban list.
pub open spec fn spec_is_banned(p: PolicyModel, name: Seq<char>) -> bool {
    exists|i: int| 0 <= i < p.banned_accounts.len() && p.banned_accounts[i] == name
}

/// `body` contains some disallowed keyword.
pub open spec fn spec_has_banned_word(p: PolicyModel, body: Seq<char>) -> bool {
    exists|i: int| 0 <= i < p.banned_words.len() && spec_contains(body, p.banned_words[i])
}

/// The candidate rewards its own author: the author replies to themselves,
/// or the parent is missing.
pub open spec fn spec_self_reward(c: CandidateModel) -> bool {
    ||| c.author == c.parent_author
    ||| c.parent_permlink.len() == 0
    ||| c.parent_author.len() == 0
}

/// Quota earned by a staked balance: the balance divided by the share
/// ratio, truncated toward zero.
pub open spec fn spec_max_shares(share_ratio: u64, stake: u64) -> int {
    stake as int / share_ratio as int
}

/// The stake and quota rule: too little stake, quota already used up, or
/// eligible.
pub open spec fn spec_quota_outcome(
    share_ratio: u64,
    stake: u64,
    settled: u64,
    pending: u64,
) -> StakingQueueAction {
    if spec_max_shares(share_ratio, stake) <= 0 {
        StakingQueueAction::NotEnoughStake
    } else if settled as int + pending as int >= spec_max_shares(share_ratio, stake) {
        StakingQueueAction::SharesExceeded
    } else {
        StakingQueueAction::StakeAndComment
    }
}

/// The engine's decision for one candidate: exactly one tag, assigned with
/// the precedence `Invalid` (trigger absent), then `Blocked`, `BlockedWord`,
/// `SelfReward`, then the stake and quota verdict.
pub open spec fn spec_classify(
    p: PolicyModel,
    c: CandidateModel,
    stake: u64,
    settled: u64,
    pending: u64,
) -> StakingQueueAction {
    if !spec_contains(c.body, p.command) {
        StakingQueueAction::Invalid
    } else if spec_is_banned(p, c.author) || spec_is_banned(p, c.parent_author) {
        StakingQueueAction::Blocked
    } else if spec_has_banned_word(p, c.body) {
        StakingQueueAction::BlockedWord
    } else if spec_self_reward(c) {
        StakingQueueAction::SelfReward
    } else {
        spec_quota_outcome(p.share_ratio, stake, settled, pending)
    }
}

/// An operation that yields a candidate: a comment-style operation carrying
/// every required field, whose body contains the trigger keyword.
pub open spec fn spec_is_candidate_op(op: OperationModel, command: Seq<char>) -> bool {
    &&& op.name == "comment"@
    &&& spec_complete(op)
    &&& spec_contains(op.body->0, command)
}

/// The candidates one operation list yields, in operation order, each
/// tagged with the owning transaction's id and the initial `Invalid` tag.
pub open spec fn spec_extract_ops(
    ops: Seq<OperationModel>,
    tx_id: Seq<char>,
    command: Seq<char>,
) -> Seq<CandidateModel>
    decreases ops.len(),
{
    if ops.len() == 0 {
        Seq::empty()
    } else {
        let rest = spec_extract_ops(ops.drop_last(), tx_id, command);
        if spec_is_candidate_op(ops.last(), command) {
            rest.push(spec_post_of(ops.last(), tx_id, StakingQueueAction::Invalid))
        } else {
            rest
        }
    }
}

/// The candidates a whole transaction list yields, in transaction order.
pub open spec fn spec_extract_block(
    txs: Seq<TransactionModel>,
    command: Seq<char>,
) -> Seq<CandidateModel>
    decreases txs.len(),
{
    if txs.len() == 0 {
        Seq::empty()
    } else {
        spec_extract_block(txs.drop_last(), command) + spec_extract_ops(
            txs.last().operations,
            txs.last().transaction_id,
            command,
        )
    }
}

/// The whole decision for one candidate, the idempotency guard included:
/// an already-recorded transaction yields nothing, an `Invalid` candidate
/// yields nothing, and every other candidate yields exactly one entry
/// carrying its outcome.
pub open spec fn spec_process(
    p: PolicyModel,
    c: CandidateModel,
    already: bool,
    stake: u64,
    settled: u64,
    pending: u64,
    amount: Seq<char>,
    symbol: Seq<char>,
) -> Option<QueueEntryModel> {
    if already {
        Option::None
    } else {
        let action = spec_classify(p, c, stake, settled, pending);
        if action == StakingQueueAction::Invalid {
            Option::None
        } else {
            Option::Some(spec_entry_of(c, amount, symbol, action))
        }
    }
}

impl Beerlover {
    /// The configuration is well formed: the share ratio is a positive
    /// divisor.
    pub open spec fn wf(&self) -> bool {
        self@.share_ratio >= 1
    }

    pub fn new(
        banned_accounts: Vec<String>,
        banned_words: Vec<String>,
        command: String,
        share_ratio: u64,
    ) -> (b: Beerlover)
        requires
            share_ratio >= 1,
        ensures
            b@.banned_accounts == banned_accounts@.map_values(|s: String| s@),
            b@.banned_words == banned_words@.map_values(|s: String| s@),
            b@.command == command@,
            b@.share_ratio == share_ratio,
            b.wf(),
    {
        Beerlover { banned_accounts, banned_words, command, share_ratio }
    }

    /// Quota earned by `stake`: the truncated quotient by the share ratio.
    pub fn maxium_shares(&self, stake: u64) -> (shares: u64)
        requires
            self.wf(),
        ensures
            shares as int == spec_max_shares(self@.share_ratio, stake),
    {
        stake / self.share_ratio
    }

    /// `name` stands on the ban list.
    fn is_banned(&self, name: &String) -> (r: bool)
        ensures
            r == spec_is_banned(self@, name@),
    {
        let n = self.banned_accounts.len();
        let mut i: usize = 0;
        while i < n
            invariant
                n == self.banned_accounts.len(),
                i <= n,
                self@.banned_accounts.len() == n,
                forall|k: int| 0 <= k < n ==> self@.banned_accounts[k] == self.banned_accounts@[k]@,
                forall|k: int| 0 <= k < i ==> self@.banned_accounts[k] != name@,
            decreases n - i,
        {
            if str_eq(self.banned_accounts[i].as_str(), name.as_str()) {
                assert(self@.banned_accounts[i as int] == name@);
                return true;
            }
            i += 1;
        }
        false
    }

    /// The body contains some disallowed keyword.
    fn has_banned_word(&self, body: &String) -> (r: bool)
        ensures
            r == spec_has_banned_word(self@, body@),
    {
        let n = self.banned_words.len();
        let mut i: usize = 0;
        while i < n
            invariant
                n == self.banned_words.len(),
                i <= n,
                self@.banned_words.len() == n,
                forall|k: int| 0 <= k < n ==> self@.banned_words[k] == self.banned_words@[k]@,
                forall|k: int| 0 <= k < i ==> !spec_contains(body@, self@.banned_words[k]),
            decreases n - i,
        {
            if contains_substr(body.as_str(), self.banned_words[i].as_str()) {
                assert(spec_contains(body@, self@.banned_words[i as int]));
                return true;
            }
            i += 1;
        }
        false
    }

    /// Yields the candidates of one transaction's operation list: each
    /// comment-style operation with all required fields whose body contains
    /// the trigger keyword, in operation order. Operations missing a field
    /// fail alone; the rest of the list is still scanned.
    pub fn filter_operations(&self, operations: &Vec<Operation>, tx_id: &str) -> (posts: Vec<
        HivePost,
    >)
        ensures
            posts@.map_values(|p: HivePost| p@) == spec_extract_ops(
                operations@.map_values(|o: Operation| o@),
                tx_id@,
                self@.command,
            ),
    {
        let ghost ops_m = operations@.map_values(|o: Operation| o@);
        let mut posts: Vec<HivePost> = Vec::new();
        let n = operations.len();
        let mut i: usize = 0;
        while i < n
            invariant
                n == operations.len(),
                i <= n,
                ops_m == operations@.map_values(|o: Operation| o@),
                ops_m.len() == n,
                posts@.map_values(|p: HivePost| p@) == spec_extract_ops(
                    ops_m.subrange(0, i as int),
                    tx_id@,
                    self@.command,
                ),
            decreases n - i,
        {
            proof {
                assert(ops_m.subrange(0, i as int + 1).drop_last() =~= ops_m.subrange(0, i as int));
                assert(ops_m.subrange(0, i as int + 1).last() == ops_m[i as int]);
                assert(ops_m[i as int] == operations@[i as int]@);
            }
            let ghost posts_before = posts@.map_values(|p: HivePost| p@);
            let op = &operations[i];
            if str_eq(op.name.as_str(), "comment") {
                match HivePost::from(op, String::from_str(tx_id), StakingQueueAction::Invalid) {
                    Option::Some(post) => {
                        if contains_substr(post.body.as_str(), self.command.as_str()) {
                            assert(spec_is_candidate_op(ops_m[i as int], self@.command));
                            posts.push(post);
                            proof {
                                assert(posts@.map_values(|p: HivePost| p@) =~= posts_before.push(
                                    spec_post_of(
                                        ops_m[i as int],
                                        tx_id@,
                                        StakingQueueAction::Invalid,
                                    ),
                                ));
                            }
                        } else {
                            assert(!spec_is_candidate_op(ops_m[i as int], self@.command));
                        }
                    },
                    Option::None => {
                        assert(!spec_is_candidate_op(ops_m[i as int], self@.command));
                    },
                }
            } else {
                assert(!spec_is_candidate_op(ops_m[i as int], self@.command));
            }
            i += 1;
        }
        proof {
            assert(ops_m.subrange(0, n as int) =~= ops_m);
        }
        posts
    }

    /// Yields the candidates of a whole block: its transactions in order,
    /// each transaction's operation list in operation order.
    pub fn extract_candidates(&self, transactions: &Vec<Transaction>) -> (posts: Vec<HivePost>)
        ensures
            posts@.map_values(|p: HivePost| p@) == spec_extract_block(
                transactions@.map_values(|t: Transaction| t@),
                self@.command,
            ),
    {
        let ghost txs_m = transactions@.map_values(|t: Transaction| t@);
        let mut posts: Vec<HivePost> = Vec::new();
        let n = transactions.len();
        let mut i: usize = 0;
        while i < n
            invariant
                n == transactions.len(),
                i <= n,
                txs_m == transactions@.map_values(|t: Transaction| t@),
                txs_m.len() == n,
                posts@.map_values(|p: HivePost| p@) == spec_extract_block(
                    txs_m.subrange(0, i as int),
                    self@.command,
                ),
            decreases n - i,
        {
            proof {
                assert(txs_m.subrange(0, i as int + 1).drop_last() =~= txs_m.subrange(0, i as int));
                assert(txs_m.subrange(0, i as int + 1).last() == txs_m[i as int]);
                assert(txs_m[i as int] == transactions@[i as int]@);
            }
            let ghost posts_before = posts@.map_values(|p: HivePost| p@);
            let tx = &transactions[i];
            let mut fresh = self.filter_operations(&tx.operations, tx.transaction_id.as_str());
            let ghost fresh_m = fresh@.map_values(|p: HivePost| p@);
            posts.append(&mut fresh);
            proof {
                assert(posts@.map_values(|p: HivePost| p@) =~= posts_before + fresh_m);
            }
            i += 1;
        }
        proof {
            assert(txs_m.subrange(0, n as int) =~= txs_m);
        }
        posts
    }

    /// The stake and quota verdict, for a candidate no earlier rule
    /// disqualified.
    pub fn quota_outcome(&self, stake: u64, settled: u64, pending: u64) -> (a: StakingQueueAction)
        requires
            self.wf(),
        ensures
            a == spec_quota_outcome(self@.share_ratio, stake, settled, pending),
    {
        let max_shares = stake / self.share_ratio;
        if max_shares == 0 {
            StakingQueueAction::NotEnoughStake
        } else if settled >= max_shares || pending >= max_shares - settled {
            StakingQueueAction::SharesExceeded
        } else {
            StakingQueueAction::StakeAndComment
        }
    }

    /// The part of the decision that needs no balance or quota: `Some` of
    /// the outcome wherever the outcome stands fixed whatever the account's
    /// stake and counts turn out to be, `None` where the stake and quota
    /// verdict decides.
    pub fn early_outcome(&self, post: &HivePost) -> (r: Option<StakingQueueAction>)
        ensures
            r matches Some(a) ==> forall|stake: u64, settled: u64, pending: u64|
                spec_classify(self@, post@, stake, settled, pending) == a,
            r is None ==> forall|stake: u64, settled: u64, pending: u64|
                spec_classify(self@, post@, stake, settled, pending) == spec_quota_outcome(
                    self@.share_ratio,
                    stake,
                    settled,
                    pending,
                ),
    {
        if !contains_substr(post.body.as_str(), self.command.as_str()) {
            Option::Some(StakingQueueAction::Invalid)
        } else if self.is_banned(&post.author) || self.is_banned(&post.parent_author) {
            Option::Some(StakingQueueAction::Blocked)
        } else if self.has_banned_word(&post.body) {
            Option::Some(StakingQueueAction::BlockedWord)
        } else if str_eq(post.author.as_str(), post.parent_author.as_str())
            || post.parent_permlink.as_str().unicode_len() == 0 || post.parent_author.as_str().unicode_len() == 0 {
            Option::Some(StakingQueueAction::SelfReward)
        } else {
            Option::None
        }
    }

    /// The engine's decision for one candidate, given the author's staked
    /// balance and quota counts fetched at evaluation time.
    pub fn classify(
        &self,
        post: &HivePost,
        stake: u64,
        settled: u64,
        pending: u64,
    ) -> (a: StakingQueueAction)
        requires
            self.wf(),
        ensures
            a == spec_classify(self@, post@, stake, settled, pending),
    {
        match self.early_outcome(post) {
            Option::Some(a) => a,
            Option::None => self.quota_outcome(stake, settled, pending),
        }
    }

    /// The whole decision for one candidate: nothing for an
    /// already-recorded transaction, nothing for an `Invalid` candidate,
    /// and otherwise exactly one queue entry carrying the outcome.
    pub fn process_candidate(
        &self,
        post: &HivePost,
        already_processed: bool,
        stake: u64,
        settled: u64,
        pending: u64,
        reward_amount: &str,
        token_symbol: &str,
    ) -> (r: Option<StakingQueueEntry>)
        requires
            self.wf(),
        ensures
            r matches Some(e) ==> Option::Some(e@) == spec_process(
                self@,
                post@,
                already_processed,
                stake,
                settled,
                pending,
                reward_amount@,
                token_symbol@,
            ),
            r is None ==> spec_process(
                self@,
                post@,
                already_processed,
                stake,
                settled,
                pending,
                reward_amount@,
                token_symbol@,
            ) is None,
    {
        if already_processed {
            return Option::None;
        }
        let action = self.classify(post, stake, settled, pending);
        if action == StakingQueueAction::Invalid {
            return Option::None;
        }
        Option::Some(StakingQueueEntry::from(post, reward_amount, token_symbol, action))
    }
}

/// The entries a run of candidates yields: each candidate decided in order
/// with its own already-recorded flag (membership of its transaction id in
/// `decided`) and its own freshly fetched stake and quota counts.
pub open spec fn spec_plan(
    p: PolicyModel,
    cands: Seq<CandidateModel>,
    decided: Set<Seq<char>>,
    quotas: Seq<(u64, u64, u64)>,
    amount: Seq<char>,
    symbol: Seq<char>,
) -> Seq<QueueEntryModel>
    decreases cands.len(),
{
    if cands.len() == 0 {
        Seq::empty()
    } else {
        let rest = spec_plan(p, cands.drop_last(), decided, quotas.drop_last(), amount, symbol);
        let q = quotas.last();
        match spec_process(
            p,
            cands.last(),
            decided.contains(cands.last().tx_id),
            q.0,
            q.1,
            q.2,
            amount,
            symbol,
        ) {
            Option::None => rest,
            Option::Some(e) => rest.push(e),
        }
    }
}

/// Law: a candidate whose body lacks the trigger keyword is tagged
/// `Invalid`, and no queue entry is produced for it.
pub proof fn lemma_missing_trigger_is_invalid(
    p: PolicyModel,
    c: CandidateModel,
    already: bool,
    stake: u64,
    settled: u64,
    pending: u64,
    amount: Seq<char>,
    symbol: Seq<char>,
)
    requires
        !spec_contains(c.body, p.command),
    ensures
        spec_classify(p, c, stake, settled, pending) == StakingQueueAction::Invalid,
        spec_process(p, c, already, stake, settled, pending, amount, symbol) is None,
{
}

/// Law: a candidate whose author replies to themselves is tagged
/// `SelfReward`, whatever the balance and quota counts. The higher-priority
/// rules must not fire: the trigger keyword must be present, the author
/// must not be banned, and the body must carry no disallowed keyword.
pub proof fn lemma_self_reply_is_self_reward(
    p: PolicyModel,
    c: CandidateModel,
    stake: u64,
    settled: u64,
    pending: u64,
)
    requires
        spec_contains(c.body, p.command),
        !spec_is_banned(p, c.author),
        !spec_has_banned_word(p, c.body),
        c.author == c.parent_author,
    ensures
        spec_classify(p, c, stake, settled, pending) == StakingQueueAction::SelfReward,
{
}

/// Law: a candidate authored by a banned account, or replying to one, is
/// tagged `Blocked`, whatever the balance and quota counts, as long as the
/// trigger keyword is present at all.
pub proof fn lemma_banned_candidate_is_blocked(
    p: PolicyModel,
    c: CandidateModel,
    stake: u64,
    settled: u64,
    pending: u64,
)
    requires
        spec_contains(c.body, p.command),
        spec_is_banned(p, c.author) || spec_is_banned(p, c.parent_author),
    ensures
        spec_classify(p, c, stake, settled, pending) == StakingQueueAction::Blocked,
{
}

/// Law: replaying candidates whose transactions already stand in the
/// decided set produces zero additional queue entries, whatever balances
/// and counts the replay observes.
pub proof fn lemma_replay_adds_nothing(
    p: PolicyModel,
    cands: Seq<CandidateModel>,
    decided: Set<Seq<char>>,
    quotas: Seq<(u64, u64, u64)>,
    amount: Seq<char>,
    symbol: Seq<char>,
)
    requires
        forall|i: int| 0 <= i < cands.len() ==> decided.contains(cands[i].tx_id),
    ensures
        spec_plan(p, cands, decided, quotas, amount, symbol).len() == 0,
    decreases cands.len(),
{
    if cands.len() > 0 {
        assert(decided.contains(cands[cands.len() - 1].tx_id));
        assert(forall|i: int|
            0 <= i < cands.drop_last().len() ==> cands.drop_last()[i] == cands[i]);
        lemma_replay_adds_nothing(
            p,
            cands.drop_last(),
            decided,
            quotas.drop_last(),
            amount,
            symbol,
        );
    }
}

/// Law: once an account's settled plus pending count has reached its quota,
/// every later candidate of that account is tagged `SharesExceeded`, as
/// long as the counts have not shrunk and the balance and share ratio stand
/// unchanged. The candidate must pass the keyword, ban and self-reference
/// rules, which do not depend on quota.
pub proof fn lemma_quota_exhaustion_persists(
    p: PolicyModel,
    c: CandidateModel,
    stake: u64,
    settled1: u64,
    pending1: u64,
    settled2: u64,
    pending2: u64,
)
    requires
        spec_contains(c.body, p.command),
        !spec_is_banned(p, c.author),
        !spec_is_banned(p, c.parent_author),
        !spec_has_banned_word(p, c.body),
        !spec_self_reward(c),
        1 <= spec_max_shares(p.share_ratio, stake),
        settled1 as int + pending1 as int >= spec_max_shares(p.share_ratio, stake),
        settled2 as int + pending2 as int >= settled1 as int + pending1 as int,
    ensures
        spec_classify(p, c, stake, settled2, pending2) == StakingQueueAction::SharesExceeded,
{
}

} // verus!
