//! The sequencer: the orchestration facade that owns the state store, the
//! block registry and the execution context, and exposes the
//! transaction-submission and point-read operations.
//!
//! Every operation takes the sequencer exclusively (`&mut self` for
//! mutations), so address derivation, balance lookup, hash computation
//! and the state transition of one submission are observed atomically;
//! an embedding that serves concurrent callers wraps the sequencer in a
//! mutex and holds it for the duration of one operation.
//!
//! Contract entry-point execution (validation logic, constructors, calls)
//! is an external capability outside this engine: the engine performs the
//! protocol-level transition — class registration, class binding, nonce
//! replay protection — and delegates the class bodies to that capability.

use vstd::prelude::*;

use crate::block::{BlockContext, Config, StarknetBlock, StarknetBlocks};
use crate::crypto::{
    calculate_contract_address, class_hash_of, contract_address_of, get_storage_var_address,
    sierra_class_hash, storage_var_address_of,
};
use crate::felt::{all_wf, felt_prime, felt_vals, lemma_felt_eq_value, Felt};
use crate::hash::{declare_legacy_hash, declare_v2_hash, deploy_account_hash};
use crate::state::{CachedState, CompiledClass, DictStateReader};
use crate::transaction::{DeclareTransaction, DeployAccountTransaction, Transaction};

verus! {

/// The failure kinds a sequencer operation can surface.
#[derive(Clone, Copy, Debug, PartialEq, Eq, Structural)]
pub enum Error {
    /// A contract address has no bound class.
    UndeclaredClass,
    /// A class hash was never declared.
    UndeclaredClassHash,
    /// The transaction was rejected: an occupied address, a stale nonce,
    /// or any other condition the execution capability refuses.
    ExecutionFailed,
    /// Replay of the origin block failed; startup cannot proceed.
    FatalBootstrapFailure,
    /// A transaction version this engine does not implement.
    UnsupportedTransactionVersion,
    /// An origin-block variant this engine cannot replay.
    UnsupportedOriginTransaction,
    /// A raw class payload that is not a well-formed class artifact.
    InvalidClassPayload,
}

/// The storage variable holding fee-token balances.
pub const FEE_BALANCES_VAR: &'static str = "ERC20_balances";

/// The fee-token storage cell that holds an account's spendable balance.
pub open spec fn fee_balance_key(address: int) -> int {
    storage_var_address_of(FEE_BALANCES_VAR@, seq![address])
}

/// Computes the fee-token balance cell of an account.
pub fn account_balance_key(address: &Felt) -> (r: Felt)
    requires
        address.wf(),
    ensures
        r.wf(),
        r@ == fee_balance_key(address@),
{
    proof {
        reveal_strlit("ERC20_balances");
        assert(vstd::string::is_ascii(FEE_BALANCES_VAR));
    }
    let mut args: Vec<Felt> = Vec::new();
    args.push(*address);
    assert(felt_vals(args@) =~= seq![address@]);
    get_storage_var_address(FEE_BALANCES_VAR, &args)
}

/// The protocol-level observations origin replay makes and updates: which
/// addresses carry which class, and each account's nonce.
pub struct BootState {
    pub classes: Map<int, int>,
    pub nonces: Map<int, int>,
}

/// An account's nonce under the replay model; unknown accounts are at zero.
pub open spec fn boot_nonce(s: BootState, a: int) -> int {
    if s.nonces.dom().contains(a) {
        s.nonces[a]
    } else {
        0
    }
}

/// The replay model of a fresh chain: nothing bound, every nonce zero.
pub open spec fn empty_boot() -> BootState {
    BootState { classes: Map::empty(), nonces: Map::empty() }
}

/// One origin transaction applied to the replay model.  The origin block
/// encodes trusted bootstrap state, so a deploy-account binds its class
/// without a prior declaration — the class bodies live with the external
/// execution capability — but an occupied address, a stale nonce, or a
/// variant other than invoke and deploy-account is fatal.
pub open spec fn apply_origin_tx(s: BootState, tx: Transaction) -> Result<BootState, Error> {
    match tx {
        Transaction::DeployAccount(t) => {
            let addr = t.contract_address@;
            if s.classes.dom().contains(addr) || boot_nonce(s, addr) != 0 {
                Err(Error::FatalBootstrapFailure)
            } else {
                Ok(
                    BootState {
                        classes: s.classes.insert(addr, t.class_hash@),
                        nonces: s.nonces.insert(addr, 1),
                    },
                )
            }
        },
        Transaction::Invoke(t) => {
            let addr = t.contract_address@;
            if t.nonce@ != boot_nonce(s, addr) {
                Err(Error::FatalBootstrapFailure)
            } else {
                Ok(
                    BootState {
                        classes: s.classes,
                        nonces: s.nonces.insert(
                            addr,
                            (boot_nonce(s, addr) + 1) % felt_prime(),
                        ),
                    },
                )
            }
        },
        Transaction::Declare(_) => Err(Error::UnsupportedOriginTransaction),
    }
}

/// The origin block's transactions replayed in order against the model.
pub open spec fn replay_origin(s: BootState, txs: Seq<Transaction>) -> Result<BootState, Error>
    decreases txs.len(),
{
    if txs.len() == 0 {
        Ok(s)
    } else {
        match apply_origin_tx(s, txs.first()) {
            Ok(s2) => replay_origin(s2, txs.drop_first()),
            Err(e) => Err(e),
        }
    }
}

/// Replay decomposes at any split point: the whole run equals the run of
/// the prefix continued, when it succeeded, with the run of the suffix.
pub proof fn lemma_replay_split(s: BootState, txs: Seq<Transaction>, j: int)
    requires
        0 <= j <= txs.len(),
    ensures
        replay_origin(s, txs) == match replay_origin(s, txs.take(j)) {
            Ok(m) => replay_origin(m, txs.skip(j)),
            Err(e) => Err(e),
        },
    decreases txs.len(),
{
    if j == 0 {
        assert(txs.take(0) =~= Seq::<Transaction>::empty());
        assert(txs.skip(0) =~= txs);
    } else {
        assert(txs.take(j).first() == txs.first());
        match apply_origin_tx(s, txs.first()) {
            Ok(s2) => {
                assert(txs.take(j).drop_first() =~= txs.drop_first().take(j - 1));
                assert(txs.skip(j) =~= txs.drop_first().skip(j - 1));
                lemma_replay_split(s2, txs.drop_first(), j - 1);
            },
            Err(e) => {},
        }
    }
}

/// Replay of one more transaction applies it to the result so far.
pub proof fn lemma_replay_snoc(s: BootState, txs: Seq<Transaction>, t: Transaction)
    ensures
        replay_origin(s, txs.push(t)) == match replay_origin(s, txs) {
            Ok(m) => apply_origin_tx(m, t),
            Err(e) => Err(e),
        },
    decreases txs.len(),
{
    if txs.len() == 0 {
        reveal_with_fuel(replay_origin, 2);
        assert(txs.push(t).len() == 1);
        assert(txs.push(t).first() == t);
        assert(txs.push(t).drop_first() =~= Seq::<Transaction>::empty());
        assert(txs =~= Seq::<Transaction>::empty());
    } else {
        assert(txs.push(t).first() == txs.first());
        assert(txs.push(t).drop_first() =~= txs.drop_first().push(t));
        match apply_origin_tx(s, txs.first()) {
            Ok(s2) => {
                lemma_replay_snoc(s2, txs.drop_first(), t);
            },
            Err(e) => {},
        }
    }
}

/// Replay of an origin block holding exactly two transactions applies the
/// first and then the second: after a successful bootstrap both
/// transactions' effects stand in the state together.
pub proof fn lemma_origin_replay_two(t0: Transaction, t1: Transaction)
    ensures
        replay_origin(empty_boot(), seq![t0, t1]) == match apply_origin_tx(empty_boot(), t0) {
            Ok(m) => apply_origin_tx(m, t1),
            Err(e) => Err(e),
        },
{
    let txs = seq![t0, t1];
    assert(txs =~= seq![t0].push(t1));
    lemma_replay_snoc(empty_boot(), seq![t0], t1);
    assert(seq![t0] =~= Seq::<Transaction>::empty().push(t0));
    lemma_replay_snoc(empty_boot(), Seq::<Transaction>::empty(), t0);
    assert(replay_origin(empty_boot(), Seq::<Transaction>::empty()) == Ok::<BootState, Error>(
        empty_boot(),
    ));
}

/// The state store and the chain registry, owned by the sequencer.
pub struct StarknetWrapper {
    pub config: Config,
    pub blocks: StarknetBlocks,
    pub block_context: BlockContext,
    pub state: CachedState,
}

/// The state observations agree with a replay model: the bound classes
/// and the nonces are exactly the model's.
pub open spec fn state_matches_boot(st: CachedState, m: BootState) -> bool {
    &&& forall|a: int|
        #[trigger] st.bound_class(a) == if m.classes.dom().contains(a) {
            Some(m.classes[a])
        } else {
            None::<int>
        }
    &&& forall|a: int| #[trigger] st.nonce_at(a) == boot_nonce(m, a)
}

/// What a freshly bootstrapped wrapper looks like: the base context, the
/// origin block registered at height zero with the next height at one,
/// untouched storage, no declared classes, and the class bindings and
/// nonces the successful replay of the origin block produced.
pub open spec fn wrapper_fresh(w: StarknetWrapper, origin: StarknetBlock, config: Config) -> bool {
    &&& w.wf()
    &&& replay_origin(empty_boot(), origin.transactions@) matches Ok(m) && state_matches_boot(
        w.state,
        m,
    )
    &&& forall|a: int, k: int| #[trigger] w.state.storage_at(a, k) == 0
    &&& forall|c: int| #[trigger] w.state.class_record(c) is None
    &&& w.blocks.height() == 1
    &&& w.blocks.block_at(0) == Some(origin)
    &&& w.blocks.number_of(origin.block_hash@) == Some(0u64)
    &&& w.blocks.spec_pending_block() is None
    &&& w.block_context.chain_id@ == crate::block::CHAIN_ID_KATANA
    &&& w.block_context.fee_token_address@ == crate::block::FEE_TOKEN_ADDRESS_HI
        * crate::felt::limb_weight() + crate::block::FEE_TOKEN_ADDRESS_LO
    &&& w.block_context.block_number == 0
    &&& w.config == config
}

impl StarknetWrapper {
    pub open spec fn wf(self) -> bool {
        &&& self.block_context.wf()
        &&& self.blocks.wf()
        &&& self.state.wf()
    }

    /// Builds the wrapper for a fresh chain: registers the origin block
    /// at height zero and replays its transactions into the state store.
    /// Success is owed exactly when the replay model accepts every origin
    /// transaction; any origin failure is fatal, so nothing is returned
    /// but the error, and an embedding must abort startup on it.
    pub fn new(origin: StarknetBlock, config: Config) -> (r: Result<StarknetWrapper, Error>)
        requires
            origin.block_number == 0,
            origin.wf(crate::block::CHAIN_ID_KATANA as int),
        ensures
            match r {
                Ok(w) => wrapper_fresh(w, origin, config),
                Err(e) => replay_origin(empty_boot(), origin.transactions@) == Err::<
                    BootState,
                    Error,
                >(e),
            },
    {
        let block_context = BlockContext::base();
        let mut state = CachedState::new(DictStateReader::new());
        let n = origin.transactions.len();
        let mut i: usize = 0;
        let ghost mut model = empty_boot();
        proof {
            assert(origin.transactions@.take(0) =~= Seq::<Transaction>::empty());
        }
        while i < n
            invariant
                n == origin.transactions@.len(),
                i <= n,
                origin.wf(crate::block::CHAIN_ID_KATANA as int),
                replay_origin(empty_boot(), origin.transactions@.take(i as int)) == Ok::<
                    BootState,
                    Error,
                >(model),
                state_matches_boot(state, model),
                forall|a: int, k: int| #[trigger] state.storage_at(a, k) == 0,
                forall|c: int| #[trigger] state.class_record(c) is None,
                state.wf(),
            decreases n - i,
        {
            let ghost txs = origin.transactions@;
            let ghost pre_model = model;
            let tx = &origin.transactions[i];
            proof {
                assert(txs[i as int].wf(crate::block::CHAIN_ID_KATANA as int));
                assert(txs.take(i + 1) =~= txs.take(i as int).push(txs[i as int]));
                lemma_replay_snoc(empty_boot(), txs.take(i as int), txs[i as int]);
            }
            match tx {
                Transaction::DeployAccount(t) => {
                    let occupied = state.get_class_hash_at(&t.contract_address).is_ok();
                    let account_nonce = state.get_nonce_at(&t.contract_address);
                    let zero = Felt::zero();
                    proof {
                        lemma_felt_eq_value(account_nonce, zero);
                    }
                    if occupied || !(account_nonce == zero) {
                        proof {
                            lemma_replay_split(empty_boot(), txs, i + 1);
                        }
                        return Err(Error::FatalBootstrapFailure);
                    }
                    state.set_class_hash_at(&t.contract_address, &t.class_hash);
                    let one = Felt::from_u64(1);
                    state.set_nonce_at(&t.contract_address, &one);
                    proof {
                        model = BootState {
                            classes: pre_model.classes.insert(t.contract_address@, t.class_hash@),
                            nonces: pre_model.nonces.insert(t.contract_address@, 1),
                        };
                    }
                },
                Transaction::Invoke(t) => {
                    let account_nonce = state.get_nonce_at(&t.contract_address);
                    proof {
                        lemma_felt_eq_value(account_nonce, t.nonce);
                    }
                    if !(account_nonce == t.nonce) {
                        proof {
                            lemma_replay_split(empty_boot(), txs, i + 1);
                        }
                        return Err(Error::FatalBootstrapFailure);
                    }
                    let next = account_nonce.add_one();
                    state.set_nonce_at(&t.contract_address, &next);
                    proof {
                        model = BootState {
                            classes: pre_model.classes,
                            nonces: pre_model.nonces.insert(
                                t.contract_address@,
                                (boot_nonce(pre_model, t.contract_address@) + 1) % felt_prime(),
                            ),
                        };
                    }
                },
                Transaction::Declare(_) => {
                    proof {
                        lemma_replay_split(empty_boot(), txs, i + 1);
                    }
                    return Err(Error::UnsupportedOriginTransaction);
                },
            }
            i = i + 1;
        }
        proof {
            assert(origin.transactions@.take(n as int) =~= origin.transactions@);
        }
        let blocks = StarknetBlocks::new_with_origin(origin);
        Ok(StarknetWrapper { config, blocks, block_context, state })
    }
}

/// What `deploy_account` returns, as a function of what it observes: the
/// class must have been declared, the derived address must carry no class
/// and no spent nonce, and on success the identifier commits to the
/// account's fee-token balance as the declared fee bound.  The checks are
/// made in this order, so the error names the first failing one.
pub open spec fn deploy_account_outcome(
    declared: bool,
    bound: Option<int>,
    account_nonce: int,
    balance: int,
    chain_id: int,
    class_hash: int,
    version: int,
    salt: int,
    calldata: Seq<int>,
) -> Result<(int, int), Error> {
    let addr = contract_address_of(salt, class_hash, calldata);
    if !declared {
        Err(Error::UndeclaredClassHash)
    } else if bound is Some {
        Err(Error::ExecutionFailed)
    } else if account_nonce != 0 {
        Err(Error::ExecutionFailed)
    } else {
        Ok((deploy_account_hash(version, addr, calldata, balance, chain_id, 0), addr))
    }
}

/// What `declare` returns, as a function of what it observes: the version
/// must be implemented, the nonce must match the sender's for replay
/// protection, and a version-two payload must be a well-formed class
/// artifact.  The checks are made in this order.  A version-two declare
/// returns the payload's content-addressed class hash; a legacy declare
/// derives no class hash and returns zero.  The engine identifies the
/// executable form of a class by the class's own content hash, since
/// compilation is delegated to the external execution capability.
pub open spec fn declare_outcome(
    account_nonce: int,
    chain_id: int,
    version: int,
    max_fee: int,
    nonce: int,
    sender_address: int,
    payload: Seq<u8>,
) -> Result<(int, int), Error> {
    if version != 0 && version != 1 && version != 2 {
        Err(Error::UnsupportedTransactionVersion)
    } else if nonce != account_nonce {
        Err(Error::ExecutionFailed)
    } else if version == 2 {
        match class_hash_of(payload) {
            Some(ch) => Ok((declare_v2_hash(sender_address, ch, max_fee, chain_id, nonce, ch), ch)),
            None => Err(Error::InvalidClassPayload),
        }
    } else {
        Ok((declare_legacy_hash(version, sender_address, 0, max_fee, chain_id, nonce), 0))
    }
}

/// The orchestration facade: owns the wrapped chain and exposes the
/// transaction-submission and point-read operations.
pub struct KatanaSequencer {
    pub starknet: StarknetWrapper,
}

impl KatanaSequencer {
    pub open spec fn wf(self) -> bool {
        self.starknet.wf()
    }

    /// Builds a sequencer over a fresh chain bootstrapped from the origin
    /// block; an origin failure is fatal and aborts construction.
    pub fn new(origin: StarknetBlock, config: Config) -> (r: Result<KatanaSequencer, Error>)
        requires
            origin.block_number == 0,
            origin.wf(crate::block::CHAIN_ID_KATANA as int),
        ensures
            match r {
                Ok(s) => wrapper_fresh(s.starknet, origin, config),
                Err(e) => replay_origin(empty_boot(), origin.transactions@) == Err::<
                    BootState,
                    Error,
                >(e),
            },
    {
        match StarknetWrapper::new(origin, config) {
            Ok(starknet) => Ok(KatanaSequencer { starknet }),
            Err(e) => Err(e),
        }
    }

    /// The current chain height.
    pub fn block_number(&self) -> (r: u64)
        ensures
            r == self.starknet.blocks.height(),
    {
        self.starknet.blocks.block_number()
    }

    /// Deploys an account contract: derives the contract address from the
    /// salt, class hash and constructor calldata; reads the account's
    /// fee-token balance as the declared fee bound; assembles the
    /// transaction with its canonical hash and nonce zero; and applies
    /// the protocol transition.  On failure nothing changes.
    pub fn deploy_account(
        &mut self,
        class_hash: Felt,
        version: Felt,
        contract_address_salt: Felt,
        constructor_calldata: Vec<Felt>,
        signature: Vec<Felt>,
    ) -> (r: Result<(Felt, Felt), Error>)
        requires
            old(self).wf(),
            class_hash.wf(),
            version.wf(),
            contract_address_salt.wf(),
            all_wf(constructor_calldata@),
            all_wf(signature@),
        ensures
            final(self).wf(),
            final(self).starknet.blocks == old(self).starknet.blocks,
            final(self).starknet.block_context == old(self).starknet.block_context,
            final(self).starknet.config == old(self).starknet.config,
            ({
                let st = old(self).starknet.state;
                let ctx = old(self).starknet.block_context;
                let addr = contract_address_of(
                    contract_address_salt@,
                    class_hash@,
                    felt_vals(constructor_calldata@),
                );
                let outcome = deploy_account_outcome(
                    st.is_declared(class_hash@),
                    st.bound_class(addr),
                    st.nonce_at(addr),
                    st.storage_at(ctx.fee_token_address@, fee_balance_key(addr)),
                    ctx.chain_id@,
                    class_hash@,
                    version@,
                    contract_address_salt@,
                    felt_vals(constructor_calldata@),
                );
                match r {
                    Ok(p) => {
                        &&& outcome == Ok::<(int, int), Error>((p.0@, p.1@))
                        &&& p.0.wf()
                        &&& p.1.wf()
                        &&& final(self).starknet.state.bound_class(addr) == Some(class_hash@)
                        &&& final(self).starknet.state.nonce_at(addr) == 1
                        &&& forall|a: int|
                            a != addr ==> #[trigger] final(self).starknet.state.bound_class(a)
                                == st.bound_class(a)
                        &&& forall|a: int|
                            a != addr ==> #[trigger] final(self).starknet.state.nonce_at(a)
                                == st.nonce_at(a)
                        &&& forall|a: int, k: int|
                            #[trigger] final(self).starknet.state.storage_at(a, k)
                                == st.storage_at(a, k)
                        &&& forall|c: int|
                            #[trigger] final(self).starknet.state.class_record(c)
                                == st.class_record(c)
                    },
                    Err(e) => outcome == Err::<(int, int), Error>(e) && *final(self) == *old(
                        self,
                    ),
                }
            }),
    {
        let contract_address = calculate_contract_address(
            &contract_address_salt,
            &class_hash,
            &constructor_calldata,
        );
        let balance_key = account_balance_key(&contract_address);
        let fee_token = self.starknet.block_context.fee_token_address;
        let max_fee = self.starknet.state.get_storage_at(&fee_token, &balance_key);
        if !self.starknet.state.get_compiled_class(&class_hash).is_ok() {
            return Err(Error::UndeclaredClassHash);
        }
        if self.starknet.state.get_class_hash_at(&contract_address).is_ok() {
            return Err(Error::ExecutionFailed);
        }
        let account_nonce = self.starknet.state.get_nonce_at(&contract_address);
        let zero = Felt::zero();
        proof {
            lemma_felt_eq_value(account_nonce, zero);
        }
        if !(account_nonce == zero) {
            return Err(Error::ExecutionFailed);
        }
        let chain_id = self.starknet.block_context.chain_id;
        let tx = DeployAccountTransaction::new(
            class_hash,
            version,
            contract_address_salt,
            constructor_calldata,
            signature,
            max_fee,
            &chain_id,
        );
        self.starknet.state.set_class_hash_at(&contract_address, &class_hash);
        let one = Felt::from_u64(1);
        self.starknet.state.set_nonce_at(&contract_address, &one);
        Ok((tx.transaction_hash, contract_address))
    }

    /// The development faucet: writes `balance` into the not-yet-deployed
    /// account's fee-token balance cell, then deploys the account, so the
    /// balance-based fee lookup reads the dripped amount.  This conflates
    /// funding and deployment and is a development convenience, not a
    /// protocol operation; the dripped balance stays written even when
    /// the deployment itself fails.
    pub fn drip_and_deploy_account(
        &mut self,
        class_hash: Felt,
        version: Felt,
        contract_address_salt: Felt,
        constructor_calldata: Vec<Felt>,
        signature: Vec<Felt>,
        balance: u64,
    ) -> (r: Result<(Felt, Felt), Error>)
        requires
            old(self).wf(),
            class_hash.wf(),
            version.wf(),
            contract_address_salt.wf(),
            all_wf(constructor_calldata@),
            all_wf(signature@),
        ensures
            final(self).wf(),
            final(self).starknet.blocks == old(self).starknet.blocks,
            final(self).starknet.block_context == old(self).starknet.block_context,
            final(self).starknet.config == old(self).starknet.config,
            ({
                let st = old(self).starknet.state;
                let ctx = old(self).starknet.block_context;
                let addr = contract_address_of(
                    contract_address_salt@,
                    class_hash@,
                    felt_vals(constructor_calldata@),
                );
                let key = fee_balance_key(addr);
                let outcome = deploy_account_outcome(
                    st.is_declared(class_hash@),
                    st.bound_class(addr),
                    st.nonce_at(addr),
                    balance as int,
                    ctx.chain_id@,
                    class_hash@,
                    version@,
                    contract_address_salt@,
                    felt_vals(constructor_calldata@),
                );
                &&& final(self).starknet.state.storage_at(ctx.fee_token_address@, key)
                    == balance as int
                &&& forall|a: int, k: int|
                    !(a == ctx.fee_token_address@ && k == key)
                        ==> #[trigger] final(self).starknet.state.storage_at(a, k)
                        == st.storage_at(a, k)
                &&& forall|c: int|
                    #[trigger] final(self).starknet.state.class_record(c) == st.class_record(c)
                &&& match r {
                    Ok(p) => {
                        &&& outcome == Ok::<(int, int), Error>((p.0@, p.1@))
                        &&& p.0.wf()
                        &&& p.1.wf()
                        &&& final(self).starknet.state.bound_class(addr) == Some(class_hash@)
                        &&& final(self).starknet.state.nonce_at(addr) == 1
                        &&& forall|a: int|
                            a != addr ==> #[trigger] final(self).starknet.state.bound_class(a)
                                == st.bound_class(a)
                        &&& forall|a: int|
                            a != addr ==> #[trigger] final(self).starknet.state.nonce_at(a)
                                == st.nonce_at(a)
                    },
                    Err(e) => {
                        &&& outcome == Err::<(int, int), Error>(e)
                        &&& forall|a: int|
                            #[trigger] final(self).starknet.state.bound_class(a)
                                == st.bound_class(a)
                        &&& forall|a: int|
                            #[trigger] final(self).starknet.state.nonce_at(a) == st.nonce_at(a)
                    },
                }
            }),
    {
        let contract_address = calculate_contract_address(
            &contract_address_salt,
            &class_hash,
            &constructor_calldata,
        );
        let balance_key = account_balance_key(&contract_address);
        let amount = Felt::from_u64(balance);
        let fee_token = self.starknet.block_context.fee_token_address;
        self.starknet.state.set_storage_at(&fee_token, &balance_key, &amount);
        self.deploy_account(class_hash, version, contract_address_salt, constructor_calldata,
            signature)
    }

    /// Declares a contract class.  Versions zero and one are legacy: no
    /// class hash is derived from the payload and zero is returned in its
    /// place.  Version two derives the class hash from the payload and
    /// registers the class.  Re-declaring a class hash is idempotent
    /// success: the registration is simply installed again.  The sender's
    /// nonce must match the transaction's and is consumed on success.
    pub fn declare(
        &mut self,
        version: u64,
        max_fee: Felt,
        signature: Vec<Felt>,
        nonce: Felt,
        sender_address: Felt,
        contract_class: &[u8],
    ) -> (r: Result<(Felt, Felt), Error>)
        requires
            old(self).wf(),
            max_fee.wf(),
            all_wf(signature@),
            nonce.wf(),
            sender_address.wf(),
        ensures
            final(self).wf(),
            final(self).starknet.blocks == old(self).starknet.blocks,
            final(self).starknet.block_context == old(self).starknet.block_context,
            final(self).starknet.config == old(self).starknet.config,
            ({
                let st = old(self).starknet.state;
                let ctx = old(self).starknet.block_context;
                let outcome = declare_outcome(
                    st.nonce_at(sender_address@),
                    ctx.chain_id@,
                    version as int,
                    max_fee@,
                    nonce@,
                    sender_address@,
                    contract_class@,
                );
                match r {
                    Ok(p) => {
                        &&& outcome == Ok::<(int, int), Error>((p.0@, p.1@))
                        &&& p.0.wf()
                        &&& p.1.wf()
                        &&& final(self).starknet.state.nonce_at(sender_address@) == (nonce@ + 1)
                            % felt_prime()
                        &&& forall|a: int|
                            a != sender_address@
                                ==> #[trigger] final(self).starknet.state.nonce_at(a)
                                == st.nonce_at(a)
                        &&& forall|a: int, k: int|
                            #[trigger] final(self).starknet.state.storage_at(a, k)
                                == st.storage_at(a, k)
                        &&& forall|a: int|
                            #[trigger] final(self).starknet.state.bound_class(a)
                                == st.bound_class(a)
                        &&& if version == 2 {
                            &&& final(self).starknet.state.class_record(p.1@) matches Some(c)
                                && c.compiled_class_hash@ == p.1@ && c.payload@ == contract_class@
                            &&& forall|c: int|
                                c != p.1@ ==> #[trigger] final(self).starknet.state.class_record(c)
                                    == st.class_record(c)
                        } else {
                            forall|c: int|
                                #[trigger] final(self).starknet.state.class_record(c)
                                    == st.class_record(c)
                        }
                    },
                    Err(e) => outcome == Err::<(int, int), Error>(e) && *final(self) == *old(
                        self,
                    ),
                }
            }),
    {
        if version > 2 {
            return Err(Error::UnsupportedTransactionVersion);
        }
        let account_nonce = self.starknet.state.get_nonce_at(&sender_address);
        proof {
            lemma_felt_eq_value(account_nonce, nonce);
        }
        if !(account_nonce == nonce) {
            return Err(Error::ExecutionFailed);
        }
        let chain_id = self.starknet.block_context.chain_id;
        if version == 2 {
            let class_hash = match sierra_class_hash(contract_class) {
                Some(h) => h,
                None => {
                    return Err(Error::InvalidClassPayload);
                },
            };
            let tx = DeclareTransaction::new_v2(
                sender_address,
                nonce,
                max_fee,
                signature,
                class_hash,
                class_hash,
                &chain_id,
            );
            let record = CompiledClass {
                compiled_class_hash: class_hash,
                payload: vstd::slice::slice_to_vec(contract_class),
            };
            self.starknet.state.declare_class(&class_hash, record);
            let next = nonce.add_one();
            self.starknet.state.set_nonce_at(&sender_address, &next);
            Ok((tx.transaction_hash, class_hash))
        } else {
            let version_felt = Felt::from_u64(version);
            let tx = DeclareTransaction::new_legacy(
                version_felt,
                sender_address,
                nonce,
                max_fee,
                signature,
                &chain_id,
            );
            let next = nonce.add_one();
            self.starknet.state.set_nonce_at(&sender_address, &next);
            Ok((tx.transaction_hash, Felt::zero()))
        }
    }

    /// The class bound to a contract address; fails with
    /// [`Error::UndeclaredClass`] exactly when no class is bound, and
    /// never otherwise.
    pub fn class_hash_at(&self, contract_address: &Felt) -> (r: Result<Felt, Error>)
        requires
            self.wf(),
        ensures
            match r {
                Ok(h) => h.wf() && self.starknet.state.bound_class(contract_address@) == Some(h@),
                Err(e) => e == Error::UndeclaredClass && self.starknet.state.bound_class(
                    contract_address@,
                ) is None,
            },
    {
        match self.starknet.state.get_class_hash_at(contract_address) {
            Ok(h) => Ok(h),
            Err(_) => Err(Error::UndeclaredClass),
        }
    }

    /// Reads a storage cell; never fails, an unset cell reads as zero.
    pub fn get_storage_at(&self, contract_address: &Felt, storage_key: &Felt) -> (r: Result<
        Felt,
        Error,
    >)
        requires
            self.wf(),
        ensures
            r matches Ok(v) && v.wf() && v@ == self.starknet.state.storage_at(
                contract_address@,
                storage_key@,
            ),
    {
        Ok(self.starknet.state.get_storage_at(contract_address, storage_key))
    }
}

/// Determinism: two deploy-account invocations whose stores observe the
/// same declaration, binding, nonce and balance, under the same context
/// and inputs, return the same transaction hash and contract address.
pub proof fn lemma_deploy_account_deterministic(
    st1: CachedState,
    st2: CachedState,
    chain_id: int,
    fee_token: int,
    class_hash: int,
    version: int,
    salt: int,
    calldata: Seq<int>,
)
    requires
        ({
            let addr = contract_address_of(salt, class_hash, calldata);
            &&& st1.is_declared(class_hash) == st2.is_declared(class_hash)
            &&& st1.bound_class(addr) == st2.bound_class(addr)
            &&& st1.nonce_at(addr) == st2.nonce_at(addr)
            &&& st1.storage_at(fee_token, fee_balance_key(addr)) == st2.storage_at(
                fee_token,
                fee_balance_key(addr),
            )
        }),
    ensures
        ({
            let addr = contract_address_of(salt, class_hash, calldata);
            deploy_account_outcome(st1.is_declared(class_hash), st1.bound_class(addr),
                st1.nonce_at(addr), st1.storage_at(fee_token, fee_balance_key(addr)), chain_id,
                class_hash, version, salt, calldata) == deploy_account_outcome(
                st2.is_declared(class_hash), st2.bound_class(addr), st2.nonce_at(addr),
                st2.storage_at(fee_token, fee_balance_key(addr)), chain_id, class_hash, version,
                salt, calldata)
        }),
{
}

/// Determinism: two declare invocations whose stores hold the same sender
/// nonce, under the same context and inputs, return the same transaction
/// hash and class hash.
pub proof fn lemma_declare_deterministic(
    st1: CachedState,
    st2: CachedState,
    chain_id: int,
    version: int,
    max_fee: int,
    nonce: int,
    sender_address: int,
    payload: Seq<u8>,
)
    requires
        st1.nonce_at(sender_address) == st2.nonce_at(sender_address),
    ensures
        declare_outcome(st1.nonce_at(sender_address), chain_id, version, max_fee, nonce,
            sender_address, payload) == declare_outcome(st2.nonce_at(sender_address), chain_id,
            version, max_fee, nonce, sender_address, payload),
{
}

/// Address derivation purity: the contract address a deployment returns
/// depends only on the salt, the class hash and the constructor calldata
/// (with the deployer address fixed at zero) — never on the state the
/// deployment observed or the chain it ran on.
pub proof fn lemma_contract_address_pure(
    declared1: bool,
    bound1: Option<int>,
    nonce1: int,
    balance1: int,
    chain1: int,
    declared2: bool,
    bound2: Option<int>,
    nonce2: int,
    balance2: int,
    chain2: int,
    class_hash: int,
    version: int,
    salt: int,
    calldata: Seq<int>,
)
    ensures
        ({
            let r1 = deploy_account_outcome(declared1, bound1, nonce1, balance1, chain1,
                class_hash, version, salt, calldata);
            let r2 = deploy_account_outcome(declared2, bound2, nonce2, balance2, chain2,
                class_hash, version, salt, calldata);
            r1 is Ok && r2 is Ok ==> r1->Ok_0.1 == r2->Ok_0.1 && r1->Ok_0.1
                == contract_address_of(salt, class_hash, calldata)
        }),
{
}

/// Balance-gated fee: when a deployment succeeds, the transaction hash it
/// returns commits to the account's fee-token balance as the declared fee
/// bound — with the faucet, to exactly the dripped amount.
pub proof fn lemma_balance_gated_fee(
    balance: int,
    chain_id: int,
    class_hash: int,
    version: int,
    salt: int,
    calldata: Seq<int>,
)
    ensures
        ({
            let addr = contract_address_of(salt, class_hash, calldata);
            deploy_account_outcome(true, None, 0, balance, chain_id, class_hash, version, salt,
                calldata) == Ok::<(int, int), Error>(
                (deploy_account_hash(version, addr, calldata, balance, chain_id, 0), addr),
            )
        }),
{
}

} // verus!
