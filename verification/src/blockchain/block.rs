//! Blocks: an ordered batch of transactions, sealed by a hash that has to
//! start with as many zeros as the difficulty asks for.

use crate::blockchain::merkle::{merkle_root, MerkleTree};
use crate::blockchain::transaction::{
    genesis_view,
    transaction_ids,
    transaction_views,
    transactions_json,
    transactions_to_json,
    Transaction,
    TransactionView,
};
use crate::digest::{sha256_hex, sha256_hex_digest};
use crate::stamp::current_timestamp;
use crate::text::{decimal_string, decimal_text, has_zero_prefix, starts_with_zeros, texts};
use vstd::prelude::*;
use vstd::string::*;

verus! {

/// The units that the genesis transaction credits.
pub const GENESIS_SUPPLY: u64 = 1_000_000_000;

/// One block of the chain.
pub struct Block {
    pub index: u64,
    pub timestamp: String,
    pub transactions: Vec<Transaction>,
    pub previous_hash: String,
    pub hash: String,
    pub nonce: u64,
    pub merkle_root: String,
}

/// What a block holds, as plain mathematical values.
pub struct BlockView {
    pub index: nat,
    pub timestamp: Seq<char>,
    pub transactions: Seq<TransactionView>,
    pub previous_hash: Seq<char>,
    pub hash: Seq<char>,
    pub nonce: nat,
    pub merkle_root: Seq<char>,
}

impl View for Block {
    type V = BlockView;

    open spec fn view(&self) -> BlockView {
        BlockView {
            index: self.index as nat,
            timestamp: self.timestamp@,
            transactions: transaction_views(self.transactions@),
            previous_hash: self.previous_hash@,
            hash: self.hash@,
            nonce: self.nonce as nat,
            merkle_root: self.merkle_root@,
        }
    }
}

impl Clone for Block {
    fn clone(&self) -> (copy: Self)
        ensures
            copy@ == self@,
    {
        let transactions: Vec<Transaction> = self.transactions.clone();
        Block {
            index: self.index,
            timestamp: self.timestamp.clone(),
            transactions,
            previous_hash: self.previous_hash.clone(),
            hash: self.hash.clone(),
            nonce: self.nonce,
            merkle_root: self.merkle_root.clone(),
        }
    }
}

/// The views of a sequence of blocks, in order.
pub open spec fn block_views(blocks: Seq<Block>) -> Seq<BlockView> {
    blocks.map_values(|b: Block| b@)
}

/// The part of the hashed text that stands before the nonce.
pub open spec fn hash_head(b: BlockView) -> Seq<char> {
    decimal_text(b.index) + b.timestamp + b.previous_hash + b.merkle_root
}

/// The text that is hashed: index, timestamp, previous hash, Merkle root,
/// nonce and the serialized transactions, in this order and without
/// separators.
pub open spec fn hash_preimage(b: BlockView) -> Seq<char> {
    hash_head(b) + decimal_text(b.nonce) + transactions_json(b.transactions)
}

/// The hash that a block with these contents must carry. It does not depend
/// on the hash that the block does carry.
pub open spec fn block_hash(b: BlockView) -> Seq<char> {
    sha256_hex(hash_preimage(b))
}

/// `b` with another nonce.
pub open spec fn with_nonce(b: BlockView, nonce: nat) -> BlockView {
    BlockView { nonce, ..b }
}

/// Some nonce above the stored one, up to `u64::MAX`, gives the contents a
/// hash that starts with `difficulty` zeros.
pub open spec fn has_qualifying_nonce(b: BlockView, difficulty: nat) -> bool {
    exists|n: nat|
        b.nonce < n <= u64::MAX && has_zero_prefix(
            #[trigger] block_hash(with_nonce(b, n)),
            difficulty,
        )
}

/// The stored hash is the hash of the contents.
pub open spec fn sealed(b: BlockView) -> bool {
    b.hash == block_hash(b)
}

/// The block carries the hash of its contents, and that hash starts with
/// `difficulty` zeros.
pub open spec fn qualifies(b: BlockView, difficulty: nat) -> bool {
    sealed(b) && has_zero_prefix(b.hash, difficulty)
}

/// The block as it is first built: nonce zero, the Merkle root taken over
/// the transaction identifiers, the hash computed from the rest.
pub open spec fn new_block_view(
    index: nat,
    timestamp: Seq<char>,
    previous_hash: Seq<char>,
    transactions: Seq<TransactionView>,
) -> BlockView {
    let unsealed = BlockView {
        index,
        timestamp,
        transactions,
        previous_hash,
        hash: Seq::empty(),
        nonce: 0,
        merkle_root: merkle_root(transaction_ids(transactions)),
    };
    BlockView { hash: block_hash(unsealed), ..unsealed }
}

/// The first block: one transaction that credits the initial supply to the
/// address `"genesis"`.
pub open spec fn genesis_block_view(
    transaction_timestamp: Seq<char>,
    block_timestamp: Seq<char>,
) -> BlockView {
    new_block_view(
        0,
        block_timestamp,
        "0"@,
        seq![genesis_view(transaction_timestamp, "genesis"@, GENESIS_SUPPLY as nat)],
    )
}

impl Block {
    /// Builds a block stamped with the current time.
    pub fn new(index: u64, previous_hash: String, transactions: Vec<Transaction>) -> (block: Block)
        ensures
            block@ == new_block_view(
                index as nat,
                block@.timestamp,
                previous_hash@,
                transaction_views(transactions@),
            ),
            block.transactions == transactions,
    {
        Self::new_at(index, current_timestamp(), previous_hash, transactions)
    }

    /// Builds the block with the given timestamp.
    pub fn new_at(
        index: u64,
        timestamp: String,
        previous_hash: String,
        transactions: Vec<Transaction>,
    ) -> (block: Block)
        ensures
            block@ == new_block_view(
                index as nat,
                timestamp@,
                previous_hash@,
                transaction_views(transactions@),
            ),
            block.transactions == transactions,
    {
        let merkle_root = Self::calculate_merkle_root(transactions.as_slice());
        let mut block = Block {
            index,
            timestamp,
            transactions,
            previous_hash,
            hash: String::new(),
            nonce: 0,
            merkle_root,
        };
        let hash = block.calculate_hash();
        block.hash = hash;
        block
    }

    /// The first block of a chain, stamped with the current time.
    pub fn genesis() -> (block: Block)
        ensures
            block@.transactions.len() == 1,
            block@ == genesis_block_view(block@.transactions[0].timestamp, block@.timestamp),
    {
        let genesis_tx = Transaction::new_genesis("genesis", GENESIS_SUPPLY);
        let ghost stamp = genesis_tx@.timestamp;
        let mut transactions: Vec<Transaction> = Vec::new();
        transactions.push(genesis_tx);
        assert(transaction_views(transactions@) =~= seq![
            genesis_view(stamp, "genesis"@, GENESIS_SUPPLY as nat),
        ]);
        Block::new(0, String::from_str("0"), transactions)
    }

    /// The first block of a chain with the given timestamps.
    pub fn genesis_at(transaction_timestamp: String, block_timestamp: String) -> (block: Block)
        ensures
            block@ == genesis_block_view(transaction_timestamp@, block_timestamp@),
    {
        let genesis_tx = Transaction::genesis_at(transaction_timestamp, "genesis", GENESIS_SUPPLY);
        let mut transactions: Vec<Transaction> = Vec::new();
        transactions.push(genesis_tx);
        assert(transaction_views(transactions@) =~= seq![
            genesis_view(transaction_timestamp@, "genesis"@, GENESIS_SUPPLY as nat),
        ]);
        Block::new_at(0, block_timestamp, String::from_str("0"), transactions)
    }

    fn hash_head_text(&self) -> (head: String)
        ensures
            head@ == hash_head(self@),
    {
        let mut head: String = decimal_string(self.index);
        head.append(self.timestamp.as_str());
        head.append(self.previous_hash.as_str());
        head.append(self.merkle_root.as_str());
        head
    }

    /// Recomputes the hash of the block's contents.
    pub fn calculate_hash(&self) -> (hash: String)
        ensures
            hash@ == block_hash(self@),
    {
        let mut data: String = self.hash_head_text();
        data.append(decimal_string(self.nonce).as_str());
        data.append(transactions_to_json(self.transactions.as_slice()).as_str());
        sha256_hex_digest(data.as_str())
    }

    /// Searches for a nonce whose hash starts with `difficulty` zeros.
    ///
    /// A block that carries the hash of its contents, with enough zeros, is
    /// left as it is. Otherwise the nonce is counted up from the stored
    /// one, the hash is recomputed for each value, and the search stops at
    /// the first nonce whose hash qualifies. It gives up, and returns
    /// `false`, when the nonce has reached `u64::MAX` without success.
    pub fn mine_block(&mut self, difficulty: u32) -> (mined: bool)
        ensures
            final(self)@ == (BlockView {
                hash: final(self)@.hash,
                nonce: final(self)@.nonce,
                ..old(self)@
            }),
            final(self).transactions == old(self).transactions,
            mined == qualifies(final(self)@, difficulty as nat),
            mined == (qualifies(old(self)@, difficulty as nat) || has_qualifying_nonce(
                old(self)@,
                difficulty as nat,
            )),
            qualifies(old(self)@, difficulty as nat) ==> final(self)@ == old(self)@,
            !mined ==> final(self)@.nonce == u64::MAX,
            old(self)@.nonce <= final(self)@.nonce,
            final(self)@.nonce == old(self)@.nonce ==> final(self)@.hash == old(self)@.hash,
            final(self)@.nonce > old(self)@.nonce ==> sealed(final(self)@) && !qualifies(
                old(self)@,
                difficulty as nat,
            ),
            forall|n: nat|
                old(self)@.nonce < n < final(self)@.nonce ==> !has_zero_prefix(
                    #[trigger] block_hash(with_nonce(old(self)@, n)),
                    difficulty as nat,
                ),
    {
        if starts_with_zeros(self.hash.as_str(), difficulty) && self.hash == self.calculate_hash() {
            return true;
        }
        let head: String = self.hash_head_text();
        let tail: String = transactions_to_json(self.transactions.as_slice());
        let mut found: bool = false;
        while !found && self.nonce < u64::MAX
            invariant
                self.index == old(self).index,
                self.timestamp == old(self).timestamp,
                self.transactions == old(self).transactions,
                self.previous_hash == old(self).previous_hash,
                self.merkle_root == old(self).merkle_root,
                head@ == hash_head(old(self)@),
                tail@ == transactions_json(old(self)@.transactions),
                old(self).nonce <= self.nonce,
                self.nonce == old(self).nonce ==> self.hash == old(self).hash && !found,
                self.nonce > old(self).nonce ==> sealed(self@) && found == has_zero_prefix(
                    self.hash@,
                    difficulty as nat,
                ),
                forall|n: nat|
                    old(self)@.nonce < n <= self@.nonce && (n < self@.nonce || !found)
                        ==> !has_zero_prefix(
                        #[trigger] block_hash(with_nonce(old(self)@, n)),
                        difficulty as nat,
                    ),
            decreases u64::MAX - self.nonce,
        {
            self.nonce = self.nonce + 1;
            let mut data: String = head.clone();
            data.append(decimal_string(self.nonce).as_str());
            data.append(tail.as_str());
            self.hash = sha256_hex_digest(data.as_str());
            found = starts_with_zeros(self.hash.as_str(), difficulty);
        }
        proof {
            if found {
                assert(self@ == (BlockView {
                    hash: self@.hash,
                    ..with_nonce(old(self)@, self@.nonce)
                }));
                assert(self@.hash == block_hash(with_nonce(old(self)@, self@.nonce)));
            }
        }
        found
    }

    /// The Merkle root over the identifiers of `transactions`.
    pub fn calculate_merkle_root(transactions: &[Transaction]) -> (root: String)
        ensures
            root@ == merkle_root(transaction_ids(transaction_views(transactions@))),
    {
        let mut ids: Vec<String> = Vec::new();
        let mut i: usize = 0;
        while i < transactions.len()
            invariant
                i <= transactions.len(),
                ids.len() == i,
                forall|j: int| 0 <= j < i ==> (#[trigger] ids[j])@ == transactions[j]@.id,
            decreases transactions.len() - i,
        {
            ids.push(transactions[i].id.clone());
            i = i + 1;
        }
        assert(texts(ids@) =~= transaction_ids(transaction_views(transactions@)));
        MerkleTree::calculate_root(ids.as_slice())
    }
}

} // verus!
