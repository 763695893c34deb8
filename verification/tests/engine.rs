//! End-to-end scenarios against the sequencer.

use katana_core::block::{Config, StarknetBlock, CHAIN_ID_KATANA};
use katana_core::felt::Felt;
use katana_core::sequencer::{account_balance_key, Error, KatanaSequencer};
use katana_core::transaction::{DeclareTransaction, DeployAccountTransaction, Transaction};

/// A minimal well-formed class artifact: an empty Sierra class.
const MINIMAL_CLASS: &str = r#"{
  "sierra_program": [],
  "sierra_program_debug_info": {"type_names": [], "libfunc_names": [], "user_func_names": []},
  "contract_class_version": "0.1.0",
  "entry_points_by_type": {"EXTERNAL": [], "L1_HANDLER": [], "CONSTRUCTOR": []},
  "abi": []
}"#;

fn empty_origin() -> StarknetBlock {
    StarknetBlock::new(Felt::from_u64(7), 0, Felt::zero(), Vec::new())
}

fn fresh_sequencer() -> KatanaSequencer {
    KatanaSequencer::new(empty_origin(), Config::new(false)).unwrap()
}

#[test]
fn nonce_is_ok() {
    let sequencer = fresh_sequencer();
    let nonce = sequencer
        .starknet
        .state
        .get_nonce_at(&Felt::from_u64(0xdead));
    assert_eq!(nonce, Felt::zero());
}

#[test]
fn block_number_is_ok() {
    let sequencer = fresh_sequencer();
    assert_eq!(sequencer.starknet.block_context.block_number, 0);
}

#[test]
fn chain_height_after_bootstrap_is_one() {
    let sequencer = fresh_sequencer();
    assert_eq!(sequencer.block_number(), 1);
}

#[test]
fn chain_id_value_is_katana() {
    let sequencer = fresh_sequencer();
    assert_eq!(
        sequencer.starknet.block_context.chain_id,
        Felt::from_u64(CHAIN_ID_KATANA)
    );
    assert_eq!(CHAIN_ID_KATANA, 0x4b4154414e41);
}

/// Declares the minimal class and returns its class hash.
fn declare_minimal(sequencer: &mut KatanaSequencer, sender: u64) -> Felt {
    let (_, class_hash) = sequencer
        .declare(
            2,
            Felt::zero(),
            vec![Felt::zero()],
            Felt::zero(),
            Felt::from_u64(sender),
            MINIMAL_CLASS.as_bytes(),
        )
        .unwrap();
    class_hash
}

#[test]
fn declare_v2_scenario_is_reproducible() {
    // Declare version 2, minimal valid payload, sender 0xdead, nonce 0,
    // max_fee 0: the class hash is the deterministic content hash of the
    // payload's class structure, identical across fresh engines.
    let mut s1 = fresh_sequencer();
    let mut s2 = fresh_sequencer();
    let (h1, c1) = s1
        .declare(
            2,
            Felt::zero(),
            vec![Felt::zero()],
            Felt::zero(),
            Felt::from_u64(0xdead),
            MINIMAL_CLASS.as_bytes(),
        )
        .unwrap();
    let (h2, c2) = s2
        .declare(
            2,
            Felt::zero(),
            vec![Felt::zero()],
            Felt::zero(),
            Felt::from_u64(0xdead),
            MINIMAL_CLASS.as_bytes(),
        )
        .unwrap();
    assert_eq!(h1, h2);
    assert_eq!(c1, c2);
    assert_ne!(c1, Felt::zero());
    assert_ne!(c1, Felt::from_u64(0xdead));
    // The deterministic content hash of this class structure.
    assert_eq!(
        c1,
        Felt::from_parts(
            0x1b4084d0ee9cc7e7d28040933a07dd4,
            0x5fcd17211e4dadb02ccf39a31666ecc5
        )
        .unwrap()
    );
}

#[test]
fn deploy_account_is_deterministic() {
    // Identical inputs on fresh engines give identical transaction hashes
    // and contract addresses.
    let mut s1 = fresh_sequencer();
    let mut s2 = fresh_sequencer();
    let c1 = declare_minimal(&mut s1, 0xdead);
    let c2 = declare_minimal(&mut s2, 0xdead);
    assert_eq!(c1, c2);
    let args = (
        Felt::from_u64(1),
        Felt::from_u64(0x123),
        vec![Felt::from_u64(9), Felt::from_u64(8)],
        vec![Felt::zero()],
    );
    let r1 = s1
        .deploy_account(c1, args.0, args.1, args.2.clone(), args.3.clone())
        .unwrap();
    let r2 = s2
        .deploy_account(c2, args.0, args.1, args.2.clone(), args.3.clone())
        .unwrap();
    assert_eq!(r1.0, r2.0);
    assert_eq!(r1.1, r2.1);
}

#[test]
fn contract_address_depends_on_each_input() {
    // Changing any one of salt, class hash or constructor calldata changes
    // the derived address; extra unrelated state does not.
    let mut s1 = fresh_sequencer();
    let class_hash = declare_minimal(&mut s1, 0xdead);
    let salt = Felt::from_u64(0x123);
    let calldata = vec![Felt::from_u64(9)];
    let (_, base_addr) = s1
        .deploy_account(class_hash, Felt::from_u64(1), salt, calldata.clone(), vec![])
        .unwrap();

    // Same inputs on an engine with extra unrelated state: same address.
    let mut s2 = fresh_sequencer();
    let class_hash2 = declare_minimal(&mut s2, 0xdead);
    let _ = s2
        .drip_and_deploy_account(
            class_hash2,
            Felt::from_u64(1),
            Felt::from_u64(0x777),
            vec![Felt::from_u64(5)],
            vec![],
            42,
        )
        .unwrap();
    let (_, same_addr) = s2
        .deploy_account(class_hash2, Felt::from_u64(1), salt, calldata.clone(), vec![])
        .unwrap();
    assert_eq!(base_addr, same_addr);

    // Changed salt.
    let mut s3 = fresh_sequencer();
    let ch3 = declare_minimal(&mut s3, 0xdead);
    let (_, addr_salt) = s3
        .deploy_account(ch3, Felt::from_u64(1), Felt::from_u64(0x124), calldata.clone(), vec![])
        .unwrap();
    assert_ne!(base_addr, addr_salt);

    // Changed calldata.
    let mut s4 = fresh_sequencer();
    let ch4 = declare_minimal(&mut s4, 0xdead);
    let (_, addr_calldata) = s4
        .deploy_account(ch4, Felt::from_u64(1), salt, vec![Felt::from_u64(10)], vec![])
        .unwrap();
    assert_ne!(base_addr, addr_calldata);

    // Changed class hash: a different class body derives a different
    // class hash, and with it a different address.
    let mut s5 = fresh_sequencer();
    let other_class = r#"{
      "sierra_program": ["0x1"],
      "sierra_program_debug_info": {"type_names": [], "libfunc_names": [], "user_func_names": []},
      "contract_class_version": "0.1.0",
      "entry_points_by_type": {"EXTERNAL": [], "L1_HANDLER": [], "CONSTRUCTOR": []},
      "abi": []
    }"#;
    let (_, ch5) = s5
        .declare(
            2,
            Felt::zero(),
            vec![],
            Felt::zero(),
            Felt::from_u64(0xdead),
            other_class.as_bytes(),
        )
        .unwrap();
    assert_ne!(ch5, class_hash);
    let (_, addr_class) = s5
        .deploy_account(ch5, Felt::from_u64(1), salt, calldata.clone(), vec![])
        .unwrap();
    assert_ne!(base_addr, addr_class);

    // The derivation transforms its inputs: the address is none of them.
    assert_ne!(base_addr, salt);
    assert_ne!(base_addr, class_hash);
}

#[test]
fn drip_and_deploy_reads_balance_as_fee() {
    // drip_and_deploy_account(balance = 1000): the committed fee bound is
    // the dripped balance, read back from the fee-token storage cell.
    let mut sequencer = fresh_sequencer();
    let class_hash = declare_minimal(&mut sequencer, 0xdead);
    let salt = Felt::from_u64(0x42);
    let calldata = vec![Felt::from_u64(3)];
    let (tx_hash, address) = sequencer
        .drip_and_deploy_account(
            class_hash,
            Felt::from_u64(1),
            salt,
            calldata.clone(),
            vec![],
            1000,
        )
        .unwrap();

    // The balance cell at the derived address reads back the drip.
    let key = account_balance_key(&address);
    let fee_token = sequencer.starknet.block_context.fee_token_address;
    let balance = sequencer.get_storage_at(&fee_token, &key).unwrap();
    assert_eq!(balance, Felt::from_u64(1000));

    // The transaction hash commits to that balance as the fee bound.
    let expected = katana_core::hash::compute_deploy_account_transaction_hash(
        &Felt::from_u64(1),
        &address,
        &calldata,
        &Felt::from_u64(1000),
        &sequencer.starknet.block_context.chain_id,
        &Felt::zero(),
    );
    assert_eq!(tx_hash, expected);
}

#[test]
fn undeclared_lookup_returns_not_found() {
    let sequencer = fresh_sequencer();
    let unknown = Felt::from_u64(0xbeef);
    assert_eq!(
        sequencer.class_hash_at(&unknown),
        Err(Error::UndeclaredClass)
    );
}

#[test]
fn deploy_account_requires_declared_class() {
    let mut sequencer = fresh_sequencer();
    let r = sequencer.deploy_account(
        Felt::from_u64(0x99),
        Felt::from_u64(1),
        Felt::from_u64(1),
        vec![],
        vec![],
    );
    assert_eq!(r, Err(Error::UndeclaredClassHash));
}

#[test]
fn deploy_account_rejects_occupied_address() {
    let mut sequencer = fresh_sequencer();
    let class_hash = declare_minimal(&mut sequencer, 0xdead);
    let salt = Felt::from_u64(0x55);
    sequencer
        .deploy_account(class_hash, Felt::from_u64(1), salt, vec![], vec![])
        .unwrap();
    let r = sequencer.deploy_account(class_hash, Felt::from_u64(1), salt, vec![], vec![]);
    assert_eq!(r, Err(Error::ExecutionFailed));
}

#[test]
fn declare_rejects_unsupported_version() {
    let mut sequencer = fresh_sequencer();
    let r = sequencer.declare(
        3,
        Felt::zero(),
        vec![],
        Felt::zero(),
        Felt::from_u64(0xdead),
        MINIMAL_CLASS.as_bytes(),
    );
    assert_eq!(r, Err(Error::UnsupportedTransactionVersion));
}

#[test]
fn declare_rejects_stale_nonce() {
    let mut sequencer = fresh_sequencer();
    let r = sequencer.declare(
        2,
        Felt::zero(),
        vec![],
        Felt::from_u64(5),
        Felt::from_u64(0xdead),
        MINIMAL_CLASS.as_bytes(),
    );
    assert_eq!(r, Err(Error::ExecutionFailed));
}

#[test]
fn declare_rejects_malformed_payload() {
    let mut sequencer = fresh_sequencer();
    let r = sequencer.declare(
        2,
        Felt::zero(),
        vec![],
        Felt::zero(),
        Felt::from_u64(0xdead),
        b"not a class artifact",
    );
    assert_eq!(r, Err(Error::InvalidClassPayload));
}

#[test]
fn declare_consumes_nonce() {
    let mut sequencer = fresh_sequencer();
    let sender = Felt::from_u64(0xdead);
    declare_minimal(&mut sequencer, 0xdead);
    assert_eq!(
        sequencer.starknet.state.get_nonce_at(&sender),
        Felt::from_u64(1)
    );
    // Re-declaring with the consumed nonce is rejected...
    let r = sequencer.declare(
        2,
        Felt::zero(),
        vec![],
        Felt::zero(),
        sender,
        MINIMAL_CLASS.as_bytes(),
    );
    assert_eq!(r, Err(Error::ExecutionFailed));
    // ...and accepted again with the next nonce: idempotent registration.
    let r = sequencer.declare(
        2,
        Felt::zero(),
        vec![],
        Felt::from_u64(1),
        sender,
        MINIMAL_CLASS.as_bytes(),
    );
    assert!(r.is_ok());
}

#[test]
fn legacy_declare_returns_zero_class_hash() {
    let mut sequencer = fresh_sequencer();
    let (tx_hash, class_hash) = sequencer
        .declare(
            1,
            Felt::zero(),
            vec![],
            Felt::zero(),
            Felt::from_u64(0xdead),
            MINIMAL_CLASS.as_bytes(),
        )
        .unwrap();
    assert_eq!(class_hash, Felt::zero());
    assert_ne!(tx_hash, Felt::zero());
}

#[test]
fn origin_replay_applies_both_transactions() {
    // An origin block with two valid deploy-account transactions: after
    // construction the height is one and both transactions' effects are
    // visible through the point reads.
    let chain_id = Felt::from_u64(CHAIN_ID_KATANA);
    let t0 = DeployAccountTransaction::new(
        Felt::from_u64(0xaa),
        Felt::from_u64(1),
        Felt::from_u64(1),
        vec![],
        vec![],
        Felt::zero(),
        &chain_id,
    );
    let t1 = DeployAccountTransaction::new(
        Felt::from_u64(0xbb),
        Felt::from_u64(1),
        Felt::from_u64(2),
        vec![],
        vec![],
        Felt::zero(),
        &chain_id,
    );
    let addr0 = t0.contract_address;
    let addr1 = t1.contract_address;
    let origin = StarknetBlock::new(
        Felt::from_u64(7),
        0,
        Felt::zero(),
        vec![
            Transaction::DeployAccount(t0),
            Transaction::DeployAccount(t1),
        ],
    );
    let sequencer = KatanaSequencer::new(origin, Config::new(false)).unwrap();
    assert_eq!(sequencer.block_number(), 1);
    assert_eq!(sequencer.class_hash_at(&addr0), Ok(Felt::from_u64(0xaa)));
    assert_eq!(sequencer.class_hash_at(&addr1), Ok(Felt::from_u64(0xbb)));
    assert_eq!(
        sequencer.starknet.state.get_nonce_at(&addr0),
        Felt::from_u64(1)
    );
    assert_eq!(
        sequencer.starknet.state.get_nonce_at(&addr1),
        Felt::from_u64(1)
    );
}

#[test]
fn origin_replay_rejects_declare_variant() {
    let chain_id = Felt::from_u64(CHAIN_ID_KATANA);
    let declare = DeclareTransaction::new_legacy(
        Felt::from_u64(1),
        Felt::from_u64(0xdead),
        Felt::zero(),
        Felt::zero(),
        vec![],
        &chain_id,
    );
    let origin = StarknetBlock::new(
        Felt::from_u64(7),
        0,
        Felt::zero(),
        vec![Transaction::Declare(declare)],
    );
    let r = KatanaSequencer::new(origin, Config::new(false));
    assert!(matches!(r, Err(Error::UnsupportedOriginTransaction)));
}

#[test]
fn origin_replay_rejects_stale_invoke_nonce() {
    let chain_id = Felt::from_u64(CHAIN_ID_KATANA);
    let invoke = katana_core::transaction::InvokeTransaction::new(
        Felt::from_u64(0xdead),
        vec![],
        Felt::from_u64(4),
        Felt::zero(),
        vec![],
        &chain_id,
    );
    let origin = StarknetBlock::new(
        Felt::from_u64(7),
        0,
        Felt::zero(),
        vec![Transaction::Invoke(invoke)],
    );
    let r = KatanaSequencer::new(origin, Config::new(false));
    assert!(matches!(r, Err(Error::FatalBootstrapFailure)));
}

#[test]
fn origin_replay_bumps_invoke_nonce() {
    let chain_id = Felt::from_u64(CHAIN_ID_KATANA);
    let target = Felt::from_u64(0xdead);
    let invoke = katana_core::transaction::InvokeTransaction::new(
        target,
        vec![Felt::from_u64(1)],
        Felt::zero(),
        Felt::zero(),
        vec![],
        &chain_id,
    );
    let origin = StarknetBlock::new(
        Felt::from_u64(7),
        0,
        Felt::zero(),
        vec![Transaction::Invoke(invoke)],
    );
    let sequencer = KatanaSequencer::new(origin, Config::new(false)).unwrap();
    assert_eq!(
        sequencer.starknet.state.get_nonce_at(&target),
        Felt::from_u64(1)
    );
}
