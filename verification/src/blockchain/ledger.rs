//! The chain itself: an append-only sequence of blocks, the transactions
//! that wait for the next block, and the balances that follow from
//! replaying every transaction.

use crate::blockchain::block::{
    block_hash,
    block_views,
    has_qualifying_nonce,
    new_block_view,
    qualifies,
    sealed,
    with_nonce,
    Block,
    BlockView,
};
use crate::blockchain::transaction::{
    mining_reward_view,
    transaction_views,
    Transaction,
    TransactionView,
};
use crate::bounds::lemma_total_has_room;
use crate::stamp::{current_timestamp, UUID_TEXT_LEN};
use crate::text::has_zero_prefix;
use vstd::prelude::*;
use vstd::string::*;

verus! {

/// Zeros that a block hash must start with on a new chain.
pub const DEFAULT_MINING_DIFFICULTY: u32 = 2;

/// Units paid to the miner of a block on a new chain.
pub const DEFAULT_MINING_REWARD: u64 = 1000;

/// Units recorded as the total supply of a new chain.
pub const DEFAULT_TOTAL_SUPPLY: u64 = 1_000_000_000;

/// Grams of CO2 credited to the chain for every mined block.
pub const BLOCK_CARBON_OFFSET: u64 = 10;

/// The balance of `address` after one more transaction: the amount leaves
/// the sender, never taking the balance below zero, and reaches the
/// recipient, never taking it above `u64::MAX`.
pub open spec fn apply_transaction(balance: nat, t: TransactionView, address: Seq<char>) -> nat {
    let debited = if t.from_address == address {
        if balance >= t.amount {
            (balance - t.amount) as nat
        } else {
            0
        }
    } else {
        balance
    };
    if t.to_address == address {
        if debited + t.amount > u64::MAX {
            u64::MAX as nat
        } else {
            debited + t.amount
        }
    } else {
        debited
    }
}

/// The balance of `address` after the transactions `txs`, in order, starting
/// from `start`.
pub open spec fn replay(start: nat, txs: Seq<TransactionView>, address: Seq<char>) -> nat
    decreases txs.len(),
{
    if txs.len() == 0 {
        start
    } else {
        apply_transaction(replay(start, txs.drop_last(), address), txs.last(), address)
    }
}

/// Every transaction of every block, in chain order.
pub open spec fn ledger(blocks: Seq<BlockView>) -> Seq<TransactionView>
    decreases blocks.len(),
{
    if blocks.len() == 0 {
        Seq::empty()
    } else {
        ledger(blocks.drop_last()) + blocks.last().transactions
    }
}

/// The balance of `address` on the chain `blocks`.
pub open spec fn balance_of(blocks: Seq<BlockView>, address: Seq<char>) -> nat {
    replay(0, ledger(blocks), address)
}

/// Block `i` carries the hash of its contents and names the hash of the
/// block before it.
pub open spec fn block_linked(blocks: Seq<BlockView>, i: int) -> bool {
    sealed(blocks[i]) && blocks[i].previous_hash == blocks[i - 1].hash
}

/// Every block after the first is linked.
pub open spec fn links_valid(blocks: Seq<BlockView>) -> bool {
    forall|i: int| 1 <= i < blocks.len() ==> block_linked(blocks, i)
}

/// A transaction may wait for the next block when it is system-issued or
/// when its sender's balance covers the amount.
pub open spec fn admissible(blocks: Seq<BlockView>, t: TransactionView) -> bool {
    t.from_address.len() == 0 || balance_of(blocks, t.from_address) >= t.amount
}

/// The number of transactions in all blocks.
pub open spec fn transaction_count(blocks: Seq<BlockView>) -> nat {
    ledger(blocks).len()
}

/// Replaying `a` and then `b` is replaying `a + b`.
pub proof fn lemma_replay_concat(
    start: nat,
    a: Seq<TransactionView>,
    b: Seq<TransactionView>,
    address: Seq<char>,
)
    ensures
        replay(start, a + b, address) == replay(replay(start, a, address), b, address),
    decreases b.len(),
{
    if b.len() > 0 {
        lemma_replay_concat(start, a, b.drop_last(), address);
        assert((a + b).drop_last() =~= a + b.drop_last());
    }
}

/// A transfer that the sender can pay for, and that the recipient has room
/// for, moves its amount from the one to the other and leaves every other
/// balance as it is.
pub proof fn lemma_transfer_moves_funds(
    before: Seq<TransactionView>,
    transfer: TransactionView,
    other: Seq<char>,
)
    requires
        transfer.from_address != transfer.to_address,
        replay(0, before, transfer.from_address) >= transfer.amount,
        replay(0, before, transfer.to_address) + transfer.amount <= u64::MAX,
        other != transfer.from_address,
        other != transfer.to_address,
    ensures
        replay(0, before.push(transfer), transfer.from_address) == replay(
            0,
            before,
            transfer.from_address,
        ) - transfer.amount,
        replay(0, before.push(transfer), transfer.to_address) == replay(
            0,
            before,
            transfer.to_address,
        ) + transfer.amount,
        replay(0, before.push(transfer), other) == replay(0, before, other),
{
    assert(before.push(transfer).drop_last() =~= before);
}

/// On a chain of two blocks, the first crediting `supply` to `holder` and
/// the second moving `amount` from `holder` to `recipient`, the holder is
/// left with the supply less the amount and the recipient has the amount.
pub proof fn lemma_genesis_then_transfer(
    genesis: BlockView,
    block: BlockView,
    holder: Seq<char>,
    recipient: Seq<char>,
    supply: nat,
    amount: nat,
)
    requires
        genesis.transactions.len() == 1,
        genesis.transactions[0].from_address.len() == 0,
        genesis.transactions[0].to_address == holder,
        genesis.transactions[0].amount == supply,
        block.transactions.len() == 1,
        block.transactions[0].from_address == holder,
        block.transactions[0].to_address == recipient,
        block.transactions[0].amount == amount,
        holder.len() > 0,
        recipient.len() > 0,
        holder != recipient,
        amount <= supply <= u64::MAX,
    ensures
        balance_of(seq![genesis, block], holder) == supply - amount,
        balance_of(seq![genesis, block], recipient) == amount,
{
    let first = seq![genesis];
    let chain = seq![genesis, block];
    assert(ledger(first.drop_last()) =~= Seq::<TransactionView>::empty());
    assert(chain =~= first.push(block));
    lemma_balance_after_block(first, block, holder);
    lemma_balance_after_block(first, block, recipient);
    let credit = genesis.transactions[0];
    let transfer = block.transactions[0];
    assert(genesis.transactions.drop_last() =~= Seq::<TransactionView>::empty());
    assert(block.transactions.drop_last() =~= Seq::<TransactionView>::empty());
    assert(replay(0, genesis.transactions, holder) == apply_transaction(
        replay(0, genesis.transactions.drop_last(), holder),
        credit,
        holder,
    ));
    assert(replay(0, genesis.transactions, recipient) == apply_transaction(
        replay(0, genesis.transactions.drop_last(), recipient),
        credit,
        recipient,
    ));
    assert(replay(supply, block.transactions, holder) == apply_transaction(
        replay(supply, block.transactions.drop_last(), holder),
        transfer,
        holder,
    ));
}

/// The balances on a chain with one more block are the balances on the
/// chain, carried through the transactions of that block.
pub proof fn lemma_balance_after_block(blocks: Seq<BlockView>, block: BlockView, address: Seq<char>)
    ensures
        balance_of(blocks.push(block), address) == replay(
            balance_of(blocks, address),
            block.transactions,
            address,
        ),
{
    assert(blocks.push(block).drop_last() =~= blocks);
    lemma_replay_concat(0, ledger(blocks), block.transactions, address);
}

/// Tampering is detected on every block but the last: a valid chain stops
/// being valid when such a block is replaced by one with another stored
/// hash, or, past the first block, by one whose contents hash to another
/// value.
pub proof fn lemma_tamper_detected(chain: Seq<BlockView>, i: int, forged: BlockView)
    requires
        links_valid(chain),
        0 <= i < chain.len() - 1,
        forged.hash != chain[i].hash || (i >= 1 && block_hash(forged) != block_hash(chain[i])),
    ensures
        !links_valid(chain.update(i, forged)),
{
    let tampered = chain.update(i, forged);
    if links_valid(tampered) {
        assert(block_linked(tampered, i + 1));
        assert(block_linked(chain, i + 1));
        assert(block_linked(tampered, i));
        assert(block_linked(chain, i));
    }
}

/// What a chain holds, as plain mathematical values.
pub struct ChainView {
    pub blocks: Seq<BlockView>,
    pub pending: Seq<TransactionView>,
    pub mining_difficulty: nat,
    pub mining_reward: nat,
    pub total_supply: nat,
    pub carbon_offset: nat,
}

/// The figures that describe a chain at a glance.
pub struct ChainStats {
    pub total_blocks: usize,
    pub total_transactions: u128,
    pub total_supply: u64,
    pub carbon_offset: u64,
    pub mining_difficulty: u32,
}

/// The chain after `reward` joined the pending transactions and the block
/// `block` was appended with them.
pub open spec fn after_block(before: ChainView, block: BlockView) -> ChainView {
    ChainView {
        blocks: before.blocks.push(block),
        pending: Seq::empty(),
        carbon_offset: before.carbon_offset + BLOCK_CARBON_OFFSET as nat,
        ..before
    }
}

/// `block` is the block that mining appends to `before` with the reward
/// transaction `reward` and the timestamp `timestamp`: built over the
/// pending transactions and the reward, linked to the tip, and carrying the
/// first nonce whose hash starts with enough zeros.
pub open spec fn mined_from(
    before: ChainView,
    reward: TransactionView,
    timestamp: Seq<char>,
    block: BlockView,
) -> bool {
    let fresh = new_block_view(
        before.blocks.len(),
        timestamp,
        before.blocks.last().hash,
        before.pending.push(reward),
    );
    &&& block == BlockView { hash: block.hash, nonce: block.nonce, ..fresh }
    &&& sealed(block)
    &&& has_zero_prefix(block.hash, before.mining_difficulty)
    &&& forall|n: nat|
        n < block.nonce ==> !has_zero_prefix(
            #[trigger] block_hash(with_nonce(fresh, n)),
            before.mining_difficulty,
        )
}

/// Mining `before` with the reward `reward` at `timestamp` finds a block:
/// some nonce up to `u64::MAX` gives the block built over the pending
/// transactions and the reward a hash that starts with enough zeros. With
/// a difficulty of zero every hash does.
pub open spec fn minable(before: ChainView, reward: TransactionView, timestamp: Seq<char>) -> bool {
    let fresh = new_block_view(
        before.blocks.len(),
        timestamp,
        before.blocks.last().hash,
        before.pending.push(reward),
    );
    exists|n: nat|
        n <= u64::MAX && has_zero_prefix(
            #[trigger] block_hash(with_nonce(fresh, n)),
            before.mining_difficulty,
        )
}

/// A mined block carries the hash of its contents, and that hash starts
/// with as many zeros as the difficulty of the chain asks for.
pub proof fn lemma_mined_block_qualifies(
    before: ChainView,
    reward: TransactionView,
    timestamp: Seq<char>,
    block: BlockView,
)
    requires
        mined_from(before, reward, timestamp, block),
    ensures
        block.hash == block_hash(block),
        has_zero_prefix(block.hash, before.mining_difficulty),
        qualifies(block, before.mining_difficulty),
{
}

/// `block` can follow the blocks `before` as a mined block: there are
/// pending transactions, a reward, a timestamp and a difficulty with which
/// mining appends it.
pub open spec fn extends_by_mining(before: Seq<BlockView>, block: BlockView) -> bool {
    exists|state: ChainView, reward: TransactionView, timestamp: Seq<char>|
        state.blocks == before && #[trigger] mined_from(state, reward, timestamp, block)
}

/// The blocks are a genesis block followed by mined blocks only.
pub open spec fn grown_by_mining(blocks: Seq<BlockView>) -> bool
    decreases blocks.len(),
{
    if blocks.len() == 0 {
        false
    } else if blocks.len() == 1 {
        exists|transaction_timestamp: Seq<char>, block_timestamp: Seq<char>|
            blocks[0] == #[trigger] crate::blockchain::block::genesis_block_view(
                transaction_timestamp,
                block_timestamp,
            )
    } else {
        grown_by_mining(blocks.drop_last()) && extends_by_mining(blocks.drop_last(), blocks.last())
    }
}

/// A chain that grew from its genesis block by mining alone is valid.
pub proof fn lemma_mined_chains_are_valid(blocks: Seq<BlockView>)
    requires
        grown_by_mining(blocks),
    ensures
        links_valid(blocks),
    decreases blocks.len(),
{
    if blocks.len() > 1 {
        let before = blocks.drop_last();
        lemma_mined_chains_are_valid(before);
        let (state, reward, timestamp) = choose|
            state: ChainView,
            reward: TransactionView,
            timestamp: Seq<char>,
        |
            state.blocks == before && #[trigger] mined_from(state, reward, timestamp, blocks.last());
        assert forall|i: int| 1 <= i < blocks.len() implies block_linked(blocks, i) by {
            if i < before.len() {
                assert(block_linked(before, i));
            }
        }
    }
}

/// The ledger: blocks, pending transactions and the mining parameters.
pub struct BitnunBlockchain {
    blocks: Vec<Block>,
    pending_transactions: Vec<Transaction>,
    mining_difficulty: u32,
    mining_reward: u64,
    total_supply: u64,
    carbon_offset: u64,
}

impl View for BitnunBlockchain {
    type V = ChainView;

    closed spec fn view(&self) -> ChainView {
        ChainView {
            blocks: block_views(self.blocks@),
            pending: transaction_views(self.pending_transactions@),
            mining_difficulty: self.mining_difficulty as nat,
            mining_reward: self.mining_reward as nat,
            total_supply: self.total_supply as nat,
            carbon_offset: self.carbon_offset as nat,
        }
    }
}

impl BitnunBlockchain {
    /// A chain holds at least its first block.
    pub open spec fn wf(&self) -> bool {
        self@.blocks.len() >= 1
    }

    /// A new chain: the genesis block, nothing pending, default parameters.
    pub fn new() -> (chain: BitnunBlockchain)
        ensures
            chain.wf(),
            chain@.blocks.len() == 1,
            chain@.blocks[0].transactions.len() == 1,
            chain@.blocks[0] == crate::blockchain::block::genesis_block_view(
                chain@.blocks[0].transactions[0].timestamp,
                chain@.blocks[0].timestamp,
            ),
            chain@.pending.len() == 0,
            chain@.mining_difficulty == DEFAULT_MINING_DIFFICULTY,
            chain@.mining_reward == DEFAULT_MINING_REWARD,
            chain@.total_supply == DEFAULT_TOTAL_SUPPLY,
            chain@.carbon_offset == 0,
            links_valid(chain@.blocks),
            grown_by_mining(chain@.blocks),
    {
        let genesis_block = Block::genesis();
        let mut blocks: Vec<Block> = Vec::new();
        blocks.push(genesis_block);
        let chain = BitnunBlockchain {
            blocks,
            pending_transactions: Vec::new(),
            mining_difficulty: DEFAULT_MINING_DIFFICULTY,
            mining_reward: DEFAULT_MINING_REWARD,
            total_supply: DEFAULT_TOTAL_SUPPLY,
            carbon_offset: 0,
        };
        chain
    }

    /// Puts a chain together from stored parts. Nothing is checked but that
    /// there is a first block: call [`Self::validate_chain`] on the result.
    pub fn restore(
        blocks: Vec<Block>,
        pending_transactions: Vec<Transaction>,
        mining_difficulty: u32,
        mining_reward: u64,
        total_supply: u64,
        carbon_offset: u64,
    ) -> (restored: Option<BitnunBlockchain>)
        ensures
            restored is None <==> blocks@.len() == 0,
            restored matches Some(chain) ==> chain.wf() && chain@ == (ChainView {
                blocks: block_views(blocks@),
                pending: transaction_views(pending_transactions@),
                mining_difficulty: mining_difficulty as nat,
                mining_reward: mining_reward as nat,
                total_supply: total_supply as nat,
                carbon_offset: carbon_offset as nat,
            }),
    {
        if blocks.len() == 0 {
            None
        } else {
            Some(
                BitnunBlockchain {
                    blocks,
                    pending_transactions,
                    mining_difficulty,
                    mining_reward,
                    total_supply,
                    carbon_offset,
                },
            )
        }
    }

    /// The blocks of the chain, oldest first.
    pub fn blocks(&self) -> (blocks: &Vec<Block>)
        ensures
            block_views(blocks@) == self@.blocks,
    {
        &self.blocks
    }

    /// The transactions that wait for the next block.
    pub fn pending_transactions(&self) -> (pending: &Vec<Transaction>)
        ensures
            transaction_views(pending@) == self@.pending,
    {
        &self.pending_transactions
    }

    /// The units paid to the miner of a block.
    pub fn mining_reward(&self) -> (reward: u64)
        ensures
            reward == self@.mining_reward,
    {
        self.mining_reward
    }

    /// Admits `transaction` to the pending set if its sender can pay for it.
    /// A rejected transaction changes nothing.
    pub fn add_transaction(&mut self, transaction: &Transaction) -> (admitted: bool)
        ensures
            final(self).wf() == old(self).wf(),
            admitted == admissible(old(self)@.blocks, transaction@),
            admitted ==> final(self)@ == (ChainView {
                pending: old(self)@.pending.push(transaction@),
                ..old(self)@
            }),
            !admitted ==> final(self)@ == old(self)@,
    {
        if self.validate_transaction(transaction) {
            self.pending_transactions.push(transaction.clone());
            assert(self@.pending =~= old(self)@.pending.push(transaction@));
            true
        } else {
            false
        }
    }

    /// Mines the pending transactions into a new block and pays the mining
    /// reward to `mining_reward_address`. Returns the hash of the new block,
    /// or `None`, with the chain unchanged, when no nonce up to `u64::MAX`
    /// gives a hash that starts with enough zeros. The reward's identifier
    /// and both timestamps are drawn here, so whether a nonce exists is
    /// only known of the block that was tried; with a difficulty of zero
    /// there always is one.
    pub fn mine_pending_transactions(&mut self, mining_reward_address: &str) -> (mined: Option<
        String,
    >)
        requires
            old(self).wf(),
            old(self)@.carbon_offset + BLOCK_CARBON_OFFSET <= u64::MAX,
        ensures
            final(self).wf(),
            old(self)@.mining_difficulty == 0 ==> mined is Some,
            mined is None ==> final(self)@ == old(self)@,
            mined is None ==> exists|reward: TransactionView, timestamp: Seq<char>|
                {
                    &&& reward == mining_reward_view(
                        reward.id,
                        reward.timestamp,
                        mining_reward_address@,
                        old(self)@.mining_reward,
                    )
                    &&& reward.id.len() == UUID_TEXT_LEN
                    &&& !(#[trigger] minable(old(self)@, reward, timestamp))
                },
            mined matches Some(hash) ==> {
                let block = final(self)@.blocks.last();
                let reward = block.transactions.last();
                &&& final(self)@ == after_block(old(self)@, block)
                &&& block.transactions.len() == old(self)@.pending.len() + 1
                &&& reward == mining_reward_view(
                    reward.id,
                    reward.timestamp,
                    mining_reward_address@,
                    old(self)@.mining_reward,
                )
                &&& reward.id.len() == UUID_TEXT_LEN
                &&& mined_from(old(self)@, reward, block.timestamp, block)
                &&& hash@ == block.hash
            },
            links_valid(old(self)@.blocks) ==> links_valid(final(self)@.blocks),
            grown_by_mining(old(self)@.blocks) ==> grown_by_mining(final(self)@.blocks),
    {
        let reward_tx = Transaction::new_mining_reward(mining_reward_address, self.mining_reward);
        let timestamp: String = current_timestamp();
        let ghost reward = reward_tx@;
        let ghost stamp = timestamp@;
        let mined = self.mine_pending_with(reward_tx, timestamp);
        proof {
            if mined is None {
                assert(!minable(old(self)@, reward, stamp));
            }
        }
        mined
    }

    /// Mines the pending transactions and `reward` into a new block stamped
    /// `timestamp`. Returns the hash of the new block exactly when some
    /// nonce up to `u64::MAX` gives it a hash that starts with enough
    /// zeros, and `None`, with the chain unchanged, when none does.
    pub fn mine_pending_with(&mut self, reward: Transaction, timestamp: String) -> (mined: Option<
        String,
    >)
        requires
            old(self).wf(),
            old(self)@.carbon_offset + BLOCK_CARBON_OFFSET <= u64::MAX,
        ensures
            final(self).wf(),
            mined is Some <==> minable(old(self)@, reward@, timestamp@),
            old(self)@.mining_difficulty == 0 ==> mined is Some,
            mined is None ==> final(self)@ == old(self)@,
            mined matches Some(hash) ==> {
                let block = final(self)@.blocks.last();
                &&& final(self)@ == after_block(old(self)@, block)
                &&& block.transactions == old(self)@.pending.push(reward@)
                &&& block.timestamp == timestamp@
                &&& mined_from(old(self)@, reward@, timestamp@, block)
                &&& hash@ == block.hash
            },
            links_valid(old(self)@.blocks) ==> links_valid(final(self)@.blocks),
            grown_by_mining(old(self)@.blocks) ==> grown_by_mining(final(self)@.blocks),
    {
        let mut transactions: Vec<Transaction> = self.pending_transactions.clone();
        transactions.push(reward);
        assert(transaction_views(transactions@) =~= old(self)@.pending.push(reward@));
        let previous_hash: String = self.get_latest_block().hash.clone();
        let mut block = Block::new_at(
            self.blocks.len() as u64,
            timestamp,
            previous_hash,
            transactions,
        );
        let ghost fresh = block@;
        let found: bool = block.mine_block(self.mining_difficulty);
        proof {
            let difficulty = old(self)@.mining_difficulty;
            assert(fresh == new_block_view(
                old(self)@.blocks.len(),
                timestamp@,
                old(self)@.blocks.last().hash,
                old(self)@.pending.push(reward@),
            ));
            assert(with_nonce(fresh, 0) == fresh);
            assert(fresh.hash == block_hash(with_nonce(fresh, 0)));
            assert(sealed(fresh));
            if found {
                if !has_zero_prefix(fresh.hash, difficulty) {
                    let n = choose|n: nat|
                        fresh.nonce < n <= u64::MAX && has_zero_prefix(
                            #[trigger] block_hash(with_nonce(fresh, n)),
                            difficulty,
                        );
                    assert(has_zero_prefix(block_hash(with_nonce(fresh, n)), difficulty));
                }
                assert(minable(old(self)@, reward@, timestamp@));
            } else {
                assert forall|n: nat| n <= u64::MAX implies !has_zero_prefix(
                    #[trigger] block_hash(with_nonce(fresh, n)),
                    difficulty,
                ) by {
                    if n > 0 && has_zero_prefix(block_hash(with_nonce(fresh, n)), difficulty) {
                        assert(has_qualifying_nonce(fresh, difficulty));
                    }
                }
            }
            if difficulty == 0 {
                assert(has_zero_prefix(fresh.hash, 0));
            }
        }
        if !found {
            return None;
        }
        let hash: String = block.hash.clone();
        self.carbon_offset = self.carbon_offset + BLOCK_CARBON_OFFSET;
        self.blocks.push(block);
        self.pending_transactions.clear();
        proof {
            let before = old(self)@.blocks;
            let after = self@.blocks;
            assert(after =~= before.push(block@));
            assert(self@.pending =~= Seq::<TransactionView>::empty());
            if links_valid(before) {
                assert forall|i: int| 1 <= i < after.len() implies block_linked(after, i) by {
                    if i < before.len() {
                        assert(block_linked(before, i));
                    }
                }
            }
            assert(after.drop_last() =~= before);
            assert(mined_from(old(self)@, reward@, timestamp@, block@));
        }
        Some(hash)
    }

    /// The balance of `address`: what replaying every transaction of every
    /// block leaves on it.
    pub fn get_balance(&self, address: &str) -> (balance: u64)
        ensures
            balance == balance_of(self@.blocks, address@),
    {
        let owner: String = String::from_str(address);
        let ghost chain = block_views(self.blocks@);
        let mut balance: u64 = 0;
        let mut i: usize = 0;
        while i < self.blocks.len()
            invariant
                i <= self.blocks.len(),
                chain == block_views(self.blocks@),
                owner@ == address@,
                balance == balance_of(chain.take(i as int), address@),
            decreases self.blocks.len() - i,
        {
            let block: &Block = &self.blocks[i];
            let ghost before = ledger(chain.take(i as int));
            let ghost txs = transaction_views(block.transactions@);
            let mut j: usize = 0;
            while j < block.transactions.len()
                invariant
                    j <= block.transactions.len(),
                    txs == transaction_views(block.transactions@),
                    owner@ == address@,
                    balance == replay(
                        replay(0, before, address@),
                        txs.take(j as int),
                        address@,
                    ),
                decreases block.transactions.len() - j,
            {
                let transaction: &Transaction = &block.transactions[j];
                if transaction.from_address == owner {
                    balance = balance.saturating_sub(transaction.amount);
                }
                if transaction.to_address == owner {
                    balance = balance.saturating_add(transaction.amount);
                }
                proof {
                    assert(txs.take(j + 1).drop_last() =~= txs.take(j as int));
                }
                j = j + 1;
            }
            proof {
                assert(txs.take(block.transactions.len() as int) =~= txs);
                lemma_replay_concat(0, before, txs, address@);
                assert(chain.take(i + 1).drop_last() =~= chain.take(i as int));
            }
            i = i + 1;
        }
        assert(chain.take(self.blocks.len() as int) =~= chain);
        balance
    }

    /// The index of the first block that does not carry the hash of its
    /// contents or does not name the hash of the block before it.
    pub fn find_invalid_block(&self) -> (found: Option<usize>)
        ensures
            found is None <==> links_valid(self@.blocks),
            found matches Some(i) ==> {
                &&& 1 <= i < self@.blocks.len()
                &&& !block_linked(self@.blocks, i as int)
                &&& forall|j: int| 1 <= j < i ==> block_linked(self@.blocks, j)
            },
    {
        let ghost chain = block_views(self.blocks@);
        let mut i: usize = 1;
        while i < self.blocks.len()
            invariant
                1 <= i,
                chain == block_views(self.blocks@),
                forall|j: int| 1 <= j < i && j < chain.len() ==> block_linked(chain, j),
            decreases self.blocks.len() - i,
        {
            let current: &Block = &self.blocks[i];
            let previous: &Block = &self.blocks[i - 1];
            if current.hash != current.calculate_hash() {
                assert(!block_linked(chain, i as int));
                return Some(i);
            }
            if current.previous_hash != previous.hash {
                assert(!block_linked(chain, i as int));
                return Some(i);
            }
            i = i + 1;
        }
        None
    }

    /// Whether every block after the first carries the hash of its contents
    /// and names the hash of the block before it.
    pub fn validate_chain(&self) -> (valid: bool)
        ensures
            valid == links_valid(self@.blocks),
    {
        self.find_invalid_block().is_none()
    }

    /// The figures that describe the chain.
    pub fn get_chain_stats(&self) -> (stats: ChainStats)
        ensures
            stats.total_blocks == self@.blocks.len(),
            stats.total_transactions == transaction_count(self@.blocks),
            stats.total_supply == self@.total_supply,
            stats.carbon_offset == self@.carbon_offset,
            stats.mining_difficulty == self@.mining_difficulty,
    {
        let ghost chain = block_views(self.blocks@);
        let mut total: u128 = 0;
        let mut i: usize = 0;
        while i < self.blocks.len()
            invariant
                i <= self.blocks.len(),
                chain == block_views(self.blocks@),
                total == transaction_count(chain.take(i as int)),
                total <= i * usize::MAX,
            decreases self.blocks.len() - i,
        {
            proof {
                assert(chain.take(i + 1).drop_last() =~= chain.take(i as int));
                lemma_total_has_room(i as nat, usize::MAX as nat);
            }
            total = total + self.blocks[i].transactions.len() as u128;
            i = i + 1;
        }
        assert(chain.take(self.blocks.len() as int) =~= chain);
        ChainStats {
            total_blocks: self.blocks.len(),
            total_transactions: total,
            total_supply: self.total_supply,
            carbon_offset: self.carbon_offset,
            mining_difficulty: self.mining_difficulty,
        }
    }

    fn validate_transaction(&self, transaction: &Transaction) -> (ok: bool)
        ensures
            ok == admissible(self@.blocks, transaction@),
    {
        if transaction.from_address.as_str().is_empty() {
            return true;
        }
        let balance: u64 = self.get_balance(transaction.from_address.as_str());
        balance >= transaction.amount
    }

    fn get_latest_block(&self) -> (tip: &Block)
        requires
            self.wf(),
        ensures
            tip@ == self@.blocks.last(),
    {
        &self.blocks[self.blocks.len() - 1]
    }
}

} // verus!
