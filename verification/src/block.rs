//! Blocks, the chain registry, and the block execution context.
//!
//! The registry holds the chain of committed blocks by height, two lookup
//! indices (hash to number, number to block), and an optional in-progress
//! pending block.  Pending-block assembly and block-hash computation are
//! explicit open extension points: their interfaces are fixed here, but no
//! closing trigger or hash algorithm is, so both report that nothing was
//! produced rather than inventing a value.

use vstd::prelude::*;

use crate::felt::Felt;
use crate::state::{assoc_find, assoc_get};
use crate::transaction::Transaction;

verus! {

/// "KATANA", the default chain identifier, read as a field element.
pub const CHAIN_ID_KATANA: u64 = 0x4b4154414e41;

/// High limb of the default fee-token contract address.
pub const FEE_TOKEN_ADDRESS_HI: u128 = 0x049d36570d4e46f48e99674bd3fcc846;

/// Low limb of the default fee-token contract address.
pub const FEE_TOKEN_ADDRESS_LO: u128 = 0x44ddd6b96f7c741b1562b82f9e004dc7;

/// Engine configuration.
pub struct Config {
    blocks_on_demand: bool,
}

impl Config {
    pub closed spec fn spec_blocks_on_demand(self) -> bool {
        self.blocks_on_demand
    }

    pub fn new(blocks_on_demand: bool) -> (r: Config)
        ensures
            r.spec_blocks_on_demand() == blocks_on_demand,
    {
        Config { blocks_on_demand }
    }
}

/// The chain context every transaction executes under: the chain
/// identifier committed into transaction hashes, the fee-token contract
/// all balance lookups read, and the starting block number.
pub struct BlockContext {
    pub chain_id: Felt,
    pub fee_token_address: Felt,
    pub block_number: u64,
}

impl BlockContext {
    pub open spec fn wf(self) -> bool {
        self.chain_id.wf() && self.fee_token_address.wf()
    }

    /// The base context of a fresh chain: the "KATANA" chain identifier,
    /// the default fee-token address, and block number zero.
    pub fn base() -> (r: BlockContext)
        ensures
            r.wf(),
            r.chain_id@ == CHAIN_ID_KATANA,
            r.fee_token_address@ == FEE_TOKEN_ADDRESS_HI * crate::felt::limb_weight()
                + FEE_TOKEN_ADDRESS_LO,
            r.block_number == 0,
    {
        let fee_token_address = match Felt::from_parts(FEE_TOKEN_ADDRESS_HI, FEE_TOKEN_ADDRESS_LO) {
            Some(f) => f,
            None => Felt::zero(),  // unreachable: the constant lies below the prime
        };
        BlockContext {
            chain_id: Felt::from_u64(CHAIN_ID_KATANA),
            fee_token_address,
            block_number: 0,
        }
    }
}

/// An ordered, numbered container of committed transactions plus its
/// header linkage.
pub struct StarknetBlock {
    pub block_hash: Felt,
    pub block_number: u64,
    pub parent_hash: Felt,
    pub transactions: Vec<Transaction>,
}

impl StarknetBlock {
    pub open spec fn wf(self, chain_id: int) -> bool {
        &&& self.block_hash.wf()
        &&& self.parent_hash.wf()
        &&& forall|i: int|
            0 <= i < self.transactions@.len() ==> (#[trigger] self.transactions@[i]).wf(chain_id)
    }

    pub fn new(
        block_hash: Felt,
        block_number: u64,
        parent_hash: Felt,
        transactions: Vec<Transaction>,
    ) -> (r: StarknetBlock)
        ensures
            r.block_hash == block_hash,
            r.block_number == block_number,
            r.parent_hash == parent_hash,
            r.transactions == transactions,
    {
        StarknetBlock { block_hash, block_number, parent_hash, transactions }
    }

    /// The transaction at a position in the block, if the position exists.
    pub fn get_transaction_by_id(&self, transaction_id: usize) -> (r: Option<&Transaction>)
        ensures
            match r {
                Some(tx) => transaction_id < self.transactions@.len() && *tx
                    == self.transactions@[transaction_id as int],
                None => transaction_id >= self.transactions@.len(),
            },
    {
        if transaction_id < self.transactions.len() {
            Some(&self.transactions[transaction_id])
        } else {
            None
        }
    }

    /// The hash recorded in the block header.
    pub fn block_hash(&self) -> (r: Felt)
        ensures
            r == self.block_hash,
    {
        self.block_hash
    }

    /// Open extension point: no block-hash algorithm is fixed for this
    /// engine yet, so no hash is computed.
    pub fn compute_block_hash(&self) -> (r: Option<Felt>)
        ensures
            r is None,
    {
        None
    }
}

/// The chain registry: current height, the committed blocks in order, the
/// hash-to-number index, and the optional pending block.
pub struct StarknetBlocks {
    current_height: u64,
    pending_block: Option<StarknetBlock>,
    hash_to_num: Vec<(Felt, u64)>,
    num_to_blocks: Vec<StarknetBlock>,
}

impl StarknetBlocks {
    /// The chain height: the number of committed blocks.
    pub closed spec fn height(self) -> int {
        self.current_height as int
    }

    /// The committed block at a height, if one exists.
    pub closed spec fn block_at(self, n: int) -> Option<StarknetBlock> {
        if 0 <= n < self.num_to_blocks@.len() {
            Some(self.num_to_blocks@[n])
        } else {
            None
        }
    }

    /// The height registered for a block hash, if any.
    pub closed spec fn number_of(self, block_hash: int) -> Option<u64> {
        assoc_get(self.hash_to_num@, block_hash)
    }

    /// The pending block, if one is being assembled.
    pub closed spec fn spec_pending_block(self) -> Option<StarknetBlock> {
        self.pending_block
    }

    pub closed spec fn wf(self) -> bool {
        &&& self.current_height == self.num_to_blocks@.len()
        &&& forall|i: int|
            0 <= i < self.num_to_blocks@.len() ==> (#[trigger] self.num_to_blocks@[i]).block_number
                == i
    }

    /// A registry holding only the origin block, at height zero, with the
    /// next height at one and no pending block.
    pub fn new_with_origin(origin: StarknetBlock) -> (r: StarknetBlocks)
        requires
            origin.block_number == 0,
            origin.block_hash.wf(),
        ensures
            r.wf(),
            r.height() == 1,
            r.block_at(0) == Some(origin),
            r.number_of(origin.block_hash@) == Some(0u64),
            r.spec_pending_block() is None,
    {
        let block_hash = origin.block_hash;
        let mut hash_to_num: Vec<(Felt, u64)> = Vec::new();
        hash_to_num.push((block_hash, 0));
        let mut num_to_blocks: Vec<StarknetBlock> = Vec::new();
        num_to_blocks.push(origin);
        proof {
            assert(assoc_get(hash_to_num@, block_hash@) == Some(0u64));
        }
        StarknetBlocks { current_height: 1, pending_block: None, hash_to_num, num_to_blocks }
    }

    /// The current chain height.
    pub fn block_number(&self) -> (r: u64)
        ensures
            r == self.height(),
    {
        self.current_height
    }

    /// The committed block at a height, if one exists.
    pub fn block_by_number(&self, n: u64) -> (r: Option<&StarknetBlock>)
        ensures
            match r {
                Some(b) => self.block_at(n as int) == Some(*b),
                None => self.block_at(n as int) is None,
            },
    {
        if n < self.num_to_blocks.len() as u64 {
            Some(&self.num_to_blocks[n as usize])
        } else {
            None
        }
    }

    /// The height registered for a block hash, if any.
    pub fn block_number_by_hash(&self, block_hash: &Felt) -> (r: Option<u64>)
        ensures
            match r {
                Some(n) => self.number_of(block_hash@) == Some(n),
                None => self.number_of(block_hash@) is None,
            },
    {
        match assoc_find(&self.hash_to_num, block_hash) {
            Some(n) => Some(*n),
            None => None,
        }
    }

    /// Open extension point: accumulating submitted transactions into a
    /// pending block is specified by interface only; no closing trigger
    /// (time, count or demand) is fixed, so no block is ever produced
    /// here and the registry is left unchanged.
    pub fn close_pending_block(&mut self) -> (r: Option<StarknetBlock>)
        ensures
            r is None,
            *final(self) == *old(self),
    {
        None
    }
}

} // verus!
