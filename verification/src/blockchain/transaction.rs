//! Transactions: value transfers and system-issued rewards.

use crate::json::{json_string, json_string_text};
use crate::stamp::{current_timestamp, fresh_id, UUID_TEXT_LEN};
use crate::text::{decimal_string, decimal_text};
use vstd::prelude::*;
use vstd::string::*;

verus! {

/// Grams of CO2 credited to a user transfer.
pub const TRANSFER_CARBON_OFFSET: u64 = 10;

/// Grams of CO2 credited to an action-mining reward.
pub const ACTION_MINING_CARBON_OFFSET: u64 = 5;

/// Grams of CO2 credited to a block-mining reward.
pub const MINING_REWARD_CARBON_OFFSET: u64 = 15;

/// A transfer of `amount` units from `from_address` to `to_address`.
/// The empty sender marks a system-issued transaction.
pub struct Transaction {
    pub id: String,
    pub from_address: String,
    pub to_address: String,
    pub amount: u64,
    pub timestamp: String,
    pub transaction_type: String,
    pub action_proof: Option<String>,
    pub carbon_offset: u64,
}

/// What a transaction holds, as plain mathematical values.
pub struct TransactionView {
    pub id: Seq<char>,
    pub from_address: Seq<char>,
    pub to_address: Seq<char>,
    pub amount: nat,
    pub timestamp: Seq<char>,
    pub transaction_type: Seq<char>,
    pub action_proof: Option<Seq<char>>,
    pub carbon_offset: nat,
}

impl View for Transaction {
    type V = TransactionView;

    open spec fn view(&self) -> TransactionView {
        TransactionView {
            id: self.id@,
            from_address: self.from_address@,
            to_address: self.to_address@,
            amount: self.amount as nat,
            timestamp: self.timestamp@,
            transaction_type: self.transaction_type@,
            action_proof: match self.action_proof {
                Some(p) => Some(p@),
                None => None,
            },
            carbon_offset: self.carbon_offset as nat,
        }
    }
}

impl Clone for Transaction {
    fn clone(&self) -> (copy: Self)
        ensures
            copy == *self,
    {
        Transaction {
            id: self.id.clone(),
            from_address: self.from_address.clone(),
            to_address: self.to_address.clone(),
            amount: self.amount,
            timestamp: self.timestamp.clone(),
            transaction_type: self.transaction_type.clone(),
            action_proof: match &self.action_proof {
                Some(p) => Some(p.clone()),
                None => None,
            },
            carbon_offset: self.carbon_offset,
        }
    }
}

/// The views of a sequence of transactions, in order.
pub open spec fn transaction_views(txs: Seq<Transaction>) -> Seq<TransactionView> {
    txs.map_values(|t: Transaction| t@)
}

/// The identifiers of a sequence of transactions, in order.
pub open spec fn transaction_ids(txs: Seq<TransactionView>) -> Seq<Seq<char>> {
    txs.map_values(|t: TransactionView| t.id)
}

/// A user transfer.
pub open spec fn transfer_view(
    id: Seq<char>,
    timestamp: Seq<char>,
    from_address: Seq<char>,
    to_address: Seq<char>,
    amount: nat,
    transaction_type: Seq<char>,
) -> TransactionView {
    TransactionView {
        id,
        from_address,
        to_address,
        amount,
        timestamp,
        transaction_type,
        action_proof: None,
        carbon_offset: TRANSFER_CARBON_OFFSET as nat,
    }
}

/// A system-issued reward for a proved action.
pub open spec fn action_mining_view(
    id: Seq<char>,
    timestamp: Seq<char>,
    user_address: Seq<char>,
    action_type: Seq<char>,
    reward_amount: nat,
    action_proof: Seq<char>,
) -> TransactionView {
    TransactionView {
        id,
        from_address: Seq::empty(),
        to_address: user_address,
        amount: reward_amount,
        timestamp,
        transaction_type: "action_mining_"@ + action_type,
        action_proof: Some(action_proof),
        carbon_offset: ACTION_MINING_CARBON_OFFSET as nat,
    }
}

/// A system-issued reward for mining a block.
pub open spec fn mining_reward_view(
    id: Seq<char>,
    timestamp: Seq<char>,
    miner_address: Seq<char>,
    reward_amount: nat,
) -> TransactionView {
    TransactionView {
        id,
        from_address: Seq::empty(),
        to_address: miner_address,
        amount: reward_amount,
        timestamp,
        transaction_type: "mining_reward"@,
        action_proof: None,
        carbon_offset: MINING_REWARD_CARBON_OFFSET as nat,
    }
}

/// The transaction that credits the initial supply.
pub open spec fn genesis_view(
    timestamp: Seq<char>,
    genesis_address: Seq<char>,
    initial_supply: nat,
) -> TransactionView {
    TransactionView {
        id: "genesis"@,
        from_address: Seq::empty(),
        to_address: genesis_address,
        amount: initial_supply,
        timestamp,
        transaction_type: "genesis"@,
        action_proof: None,
        carbon_offset: 0,
    }
}

/// A transaction is valid when it has an identifier, a recipient and a
/// positive amount.
pub open spec fn valid_transaction(t: TransactionView) -> bool {
    t.id.len() > 0 && t.to_address.len() > 0 && t.amount > 0
}

/// The JSON text of an optional string: `null` when absent.
pub open spec fn optional_json(value: Option<Seq<char>>) -> Seq<char> {
    match value {
        Some(text) => json_string_text(text),
        None => "null"@,
    }
}

/// The JSON object of one transaction, fields in declaration order.
pub open spec fn transaction_json(t: TransactionView) -> Seq<char> {
    "{\"id\":"@ + json_string_text(t.id) + ",\"from_address\":"@ + json_string_text(
        t.from_address,
    ) + ",\"to_address\":"@ + json_string_text(t.to_address) + ",\"amount\":"@ + decimal_text(
        t.amount,
    ) + ",\"timestamp\":"@ + json_string_text(t.timestamp) + ",\"transaction_type\":"@
        + json_string_text(t.transaction_type) + ",\"action_proof\":"@ + optional_json(
        t.action_proof,
    ) + ",\"carbon_offset\":"@ + decimal_text(t.carbon_offset) + "}"@
}

/// The JSON objects of `txs`, separated by commas.
pub open spec fn joined_json(txs: Seq<TransactionView>) -> Seq<char>
    decreases txs.len(),
{
    if txs.len() == 0 {
        Seq::empty()
    } else if txs.len() == 1 {
        transaction_json(txs[0])
    } else {
        joined_json(txs.drop_last()) + ","@ + transaction_json(txs.last())
    }
}

/// The JSON array of `txs`: the serialized form that enters a block's hash.
pub open spec fn transactions_json(txs: Seq<TransactionView>) -> Seq<char> {
    "["@ + joined_json(txs) + "]"@
}

impl Transaction {
    /// A user transfer with a fresh identifier, stamped with the current time.
    pub fn new(from_address: &str, to_address: &str, amount: u64, transaction_type: &str) -> (tx:
        Transaction)
        ensures
            tx@ == transfer_view(
                tx@.id,
                tx@.timestamp,
                from_address@,
                to_address@,
                amount as nat,
                transaction_type@,
            ),
            tx@.id.len() == UUID_TEXT_LEN,
    {
        Self::transfer_at(
            fresh_id(),
            current_timestamp(),
            from_address,
            to_address,
            amount,
            transaction_type,
        )
    }

    /// The user transfer with the given identifier and timestamp.
    pub fn transfer_at(
        id: String,
        timestamp: String,
        from_address: &str,
        to_address: &str,
        amount: u64,
        transaction_type: &str,
    ) -> (tx: Transaction)
        ensures
            tx@ == transfer_view(
                id@,
                timestamp@,
                from_address@,
                to_address@,
                amount as nat,
                transaction_type@,
            ),
    {
        Transaction {
            id,
            from_address: String::from_str(from_address),
            to_address: String::from_str(to_address),
            amount,
            timestamp,
            transaction_type: String::from_str(transaction_type),
            action_proof: None,
            carbon_offset: TRANSFER_CARBON_OFFSET,
        }
    }

    /// A reward for a proved action, with a fresh identifier and the current
    /// time.
    pub fn new_action_mining(
        user_address: &str,
        action_type: &str,
        reward_amount: u64,
        action_proof: &str,
    ) -> (tx: Transaction)
        ensures
            tx@ == action_mining_view(
                tx@.id,
                tx@.timestamp,
                user_address@,
                action_type@,
                reward_amount as nat,
                action_proof@,
            ),
            tx@.id.len() == UUID_TEXT_LEN,
    {
        Self::action_mining_at(
            fresh_id(),
            current_timestamp(),
            user_address,
            action_type,
            reward_amount,
            action_proof,
        )
    }

    /// The action-mining reward with the given identifier and timestamp.
    pub fn action_mining_at(
        id: String,
        timestamp: String,
        user_address: &str,
        action_type: &str,
        reward_amount: u64,
        action_proof: &str,
    ) -> (tx: Transaction)
        ensures
            tx@ == action_mining_view(
                id@,
                timestamp@,
                user_address@,
                action_type@,
                reward_amount as nat,
                action_proof@,
            ),
    {
        let kind: String = String::from_str("action_mining_").concat(action_type);
        Transaction {
            id,
            from_address: String::new(),
            to_address: String::from_str(user_address),
            amount: reward_amount,
            timestamp,
            transaction_type: kind,
            action_proof: Some(String::from_str(action_proof)),
            carbon_offset: ACTION_MINING_CARBON_OFFSET,
        }
    }

    /// A block-mining reward with a fresh identifier and the current time.
    pub fn new_mining_reward(miner_address: &str, reward_amount: u64) -> (tx: Transaction)
        ensures
            tx@ == mining_reward_view(
                tx@.id,
                tx@.timestamp,
                miner_address@,
                reward_amount as nat,
            ),
            tx@.id.len() == UUID_TEXT_LEN,
    {
        Self::mining_reward_at(fresh_id(), current_timestamp(), miner_address, reward_amount)
    }

    /// The block-mining reward with the given identifier and timestamp.
    pub fn mining_reward_at(
        id: String,
        timestamp: String,
        miner_address: &str,
        reward_amount: u64,
    ) -> (tx: Transaction)
        ensures
            tx@ == mining_reward_view(id@, timestamp@, miner_address@, reward_amount as nat),
    {
        Transaction {
            id,
            from_address: String::new(),
            to_address: String::from_str(miner_address),
            amount: reward_amount,
            timestamp,
            transaction_type: String::from_str("mining_reward"),
            action_proof: None,
            carbon_offset: MINING_REWARD_CARBON_OFFSET,
        }
    }

    /// The genesis transaction, stamped with the current time.
    pub fn new_genesis(genesis_address: &str, initial_supply: u64) -> (tx: Transaction)
        ensures
            tx@ == genesis_view(tx@.timestamp, genesis_address@, initial_supply as nat),
    {
        Self::genesis_at(current_timestamp(), genesis_address, initial_supply)
    }

    /// The genesis transaction with the given timestamp.
    pub fn genesis_at(timestamp: String, genesis_address: &str, initial_supply: u64) -> (tx:
        Transaction)
        ensures
            tx@ == genesis_view(timestamp@, genesis_address@, initial_supply as nat),
    {
        Transaction {
            id: String::from_str("genesis"),
            from_address: String::new(),
            to_address: String::from_str(genesis_address),
            amount: initial_supply,
            timestamp,
            transaction_type: String::from_str("genesis"),
            action_proof: None,
            carbon_offset: 0,
        }
    }

    /// Attaches the proof of the action that earned this transaction.
    pub fn set_action_proof(&mut self, proof: &str)
        ensures
            final(self)@ == (TransactionView { action_proof: Some(proof@), ..old(self)@ }),
    {
        self.action_proof = Some(String::from_str(proof));
    }

    /// Whether the transaction has an identifier, a recipient and a positive
    /// amount.
    pub fn is_valid(&self) -> (valid: bool)
        ensures
            valid == valid_transaction(self@),
    {
        !self.id.as_str().is_empty() && !self.to_address.as_str().is_empty() && self.amount > 0
    }

    /// The JSON object of this transaction.
    pub fn to_json(&self) -> (json: String)
        ensures
            json@ == transaction_json(self@),
    {
        let mut out: String = String::from_str("{\"id\":");
        out.append(json_string(self.id.as_str()).as_str());
        out.append(",\"from_address\":");
        out.append(json_string(self.from_address.as_str()).as_str());
        out.append(",\"to_address\":");
        out.append(json_string(self.to_address.as_str()).as_str());
        out.append(",\"amount\":");
        out.append(decimal_string(self.amount).as_str());
        out.append(",\"timestamp\":");
        out.append(json_string(self.timestamp.as_str()).as_str());
        out.append(",\"transaction_type\":");
        out.append(json_string(self.transaction_type.as_str()).as_str());
        out.append(",\"action_proof\":");
        match &self.action_proof {
            Some(p) => {
                out.append(json_string(p.as_str()).as_str());
            },
            None => {
                out.append("null");
            },
        }
        out.append(",\"carbon_offset\":");
        out.append(decimal_string(self.carbon_offset).as_str());
        out.append("}");
        out
    }
}

/// The JSON array of `txs`.
pub fn transactions_to_json(txs: &[Transaction]) -> (json: String)
    ensures
        json@ == transactions_json(transaction_views(txs@)),
{
    let mut out: String = String::from_str("[");
    let mut i: usize = 0;
    let ghost views = transaction_views(txs@);
    while i < txs.len()
        invariant
            i <= txs.len(),
            views == transaction_views(txs@),
            out@ == "["@ + joined_json(views.take(i as int)),
        decreases txs.len() - i,
    {
        if i > 0 {
            out.append(",");
        }
        out.append(txs[i].to_json().as_str());
        proof {
            assert(views.take(i + 1).drop_last() =~= views.take(i as int));
        }
        i = i + 1;
    }
    assert(views.take(txs.len() as int) =~= views);
    out.append("]");
    out
}

} // verus!
