//! The data model of block contents as the pipeline reads them: raw
//! operations, transactions, blocks, and the normalized candidate record.

use vstd::prelude::*;
use crate::queue::StakingQueueAction;

verus! {

/// Mathematical model of one raw operation.
pub ghost struct OperationModel {
    pub name: Seq<char>,
    pub author: Option<Seq<char>>,
    pub permlink: Option<Seq<char>>,
    pub parent_author: Option<Seq<char>>,
    pub parent_permlink: Option<Seq<char>>,
    pub body: Option<Seq<char>>,
}

/// One raw operation of a transaction, as the transport hands it over:
/// an operation kind and the comment fields, each possibly missing.
#[derive(Debug)]
pub struct Operation {
    pub name: String,
    pub author: Option<String>,
    pub permlink: Option<String>,
    pub parent_author: Option<String>,
    pub parent_permlink: Option<String>,
    pub body: Option<String>,
}

impl View for Operation {
    type V = OperationModel;

    open spec fn view(&self) -> OperationModel {
        OperationModel {
            name: self.name@,
            author: match self.author {
                Option::Some(s) => Option::Some(s@),
                Option::None => Option::None,
            },
            permlink: match self.permlink {
                Option::Some(s) => Option::Some(s@),
                Option::None => Option::None,
            },
            parent_author: match self.parent_author {
                Option::Some(s) => Option::Some(s@),
                Option::None => Option::None,
            },
            parent_permlink: match self.parent_permlink {
                Option::Some(s) => Option::Some(s@),
                Option::None => Option::None,
            },
            body: match self.body {
                Option::Some(s) => Option::Some(s@),
                Option::None => Option::None,
            },
        }
    }
}

/// Mathematical model of one transaction.
pub ghost struct TransactionModel {
    pub transaction_id: Seq<char>,
    pub operations: Seq<OperationModel>,
}

/// One transaction of a block: its id and its ordered operation list.
#[derive(Debug)]
pub struct Transaction {
    pub transaction_id: String,
    pub operations: Vec<Operation>,
}

impl View for Transaction {
    type V = TransactionModel;

    open spec fn view(&self) -> TransactionModel {
        TransactionModel {
            transaction_id: self.transaction_id@,
            operations: self.operations@.map_values(|o: Operation| o@),
        }
    }
}

/// One block of the chain. A block that the chain has not produced yet
/// carries no transaction list.
#[derive(Debug)]
pub struct Block {
    pub transactions: Option<Vec<Transaction>>,
}

/// Mathematical model of a candidate record.
pub ghost struct CandidateModel {
    pub author: Seq<char>,
    pub permlink: Seq<char>,
    pub parent_author: Seq<char>,
    pub parent_permlink: Seq<char>,
    pub body: Seq<char>,
    pub tx_id: Seq<char>,
    pub action: StakingQueueAction,
}

/// A normalized comment record extracted from one block operation, tagged
/// with the id of the transaction that carried it.
#[derive(Debug)]
pub struct HivePost {
    pub author: String,
    pub permlink: String,
    pub parent_author: String,
    pub parent_permlink: String,
    pub body: String,
    pub tx_id: String,
    pub action: StakingQueueAction,
}

impl View for HivePost {
    type V = CandidateModel;

    open spec fn view(&self) -> CandidateModel {
        CandidateModel {
            author: self.author@,
            permlink: self.permlink@,
            parent_author: self.parent_author@,
            parent_permlink: self.parent_permlink@,
            body: self.body@,
            tx_id: self.tx_id@,
            action: self.action,
        }
    }
}

/// An operation carries every field a candidate needs.
pub open spec fn spec_complete(op: OperationModel) -> bool {
    &&& op.author is Some
    &&& op.permlink is Some
    &&& op.parent_author is Some
    &&& op.parent_permlink is Some
    &&& op.body is Some
}

/// The candidate a complete operation normalizes to.
pub open spec fn spec_post_of(
    op: OperationModel,
    tx_id: Seq<char>,
    action: StakingQueueAction,
) -> CandidateModel {
    CandidateModel {
        author: op.author->0,
        permlink: op.permlink->0,
        parent_author: op.parent_author->0,
        parent_permlink: op.parent_permlink->0,
        body: op.body->0,
        tx_id: tx_id,
        action: action,
    }
}

impl HivePost {
    /// Normalizes one operation into a candidate. An operation missing a
    /// required field fails its own extraction and yields nothing.
    pub fn from(op: &Operation, tx_id: String, action: StakingQueueAction) -> (r: Option<
        HivePost,
    >)
        ensures
            spec_complete(op@) ==> (r matches Some(p) && p@ == spec_post_of(op@, tx_id@, action)),
            !spec_complete(op@) ==> r is None,
    {
        let author = match &op.author {
            Option::Some(s) => s.clone(),
            Option::None => {
                return Option::None;
            },
        };
        let permlink = match &op.permlink {
            Option::Some(s) => s.clone(),
            Option::None => {
                return Option::None;
            },
        };
        let parent_author = match &op.parent_author {
            Option::Some(s) => s.clone(),
            Option::None => {
                return Option::None;
            },
        };
        let parent_permlink = match &op.parent_permlink {
            Option::Some(s) => s.clone(),
            Option::None => {
                return Option::None;
            },
        };
        let body = match &op.body {
            Option::Some(s) => s.clone(),
            Option::None => {
                return Option::None;
            },
        };
        Option::Some(
            HivePost { author, permlink, parent_author, parent_permlink, body, tx_id, action },
        )
    }
}

} // verus!
