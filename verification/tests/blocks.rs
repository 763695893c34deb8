//! Block and registry checks.

use katana_core::block::{BlockContext, Config, StarknetBlock, StarknetBlocks, CHAIN_ID_KATANA};
use katana_core::felt::Felt;
use katana_core::sequencer::KatanaSequencer;
use katana_core::transaction::{InvokeTransaction, Transaction};

#[test]
fn base_context_values() {
    let ctx = BlockContext::base();
    assert_eq!(ctx.chain_id, Felt::from_u64(CHAIN_ID_KATANA));
    assert_eq!(ctx.block_number, 0);
    assert_ne!(ctx.fee_token_address, Felt::zero());
}

#[test]
fn get_transaction_by_id_finds_in_range_positions() {
    let chain_id = Felt::from_u64(CHAIN_ID_KATANA);
    let tx = InvokeTransaction::new(
        Felt::from_u64(0xdead),
        vec![],
        Felt::zero(),
        Felt::zero(),
        vec![],
        &chain_id,
    );
    let expected_hash = tx.transaction_hash;
    let block = StarknetBlock::new(
        Felt::from_u64(7),
        0,
        Felt::zero(),
        vec![Transaction::Invoke(tx)],
    );
    let found = block.get_transaction_by_id(0).unwrap();
    assert_eq!(found.transaction_hash(), expected_hash);
    assert!(block.get_transaction_by_id(1).is_none());
    assert_eq!(block.block_hash(), Felt::from_u64(7));
}

#[test]
fn registry_indexes_the_origin_block() {
    let origin = StarknetBlock::new(Felt::from_u64(7), 0, Felt::zero(), vec![]);
    let blocks = StarknetBlocks::new_with_origin(origin);
    assert_eq!(blocks.block_number(), 1);
    let at_zero = blocks.block_by_number(0).unwrap();
    assert_eq!(at_zero.block_hash(), Felt::from_u64(7));
    assert!(blocks.block_by_number(1).is_none());
    assert_eq!(blocks.block_number_by_hash(&Felt::from_u64(7)), Some(0));
    assert_eq!(blocks.block_number_by_hash(&Felt::from_u64(8)), None);
}

#[test]
fn open_extension_points_produce_nothing() {
    let origin = StarknetBlock::new(Felt::from_u64(7), 0, Felt::zero(), vec![]);
    assert!(origin.compute_block_hash().is_none());
    let mut blocks = StarknetBlocks::new_with_origin(origin);
    assert!(blocks.close_pending_block().is_none());
    assert_eq!(blocks.block_number(), 1);
}

#[test]
fn sequencer_holds_configuration() {
    let origin = StarknetBlock::new(Felt::from_u64(7), 0, Felt::zero(), vec![]);
    let sequencer = KatanaSequencer::new(origin, Config::new(true)).unwrap();
    assert_eq!(sequencer.starknet.block_context.block_number, 0);
}
