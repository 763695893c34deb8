//! The transaction hasher: pure functions computing the canonical,
//! protocol-defined identifier of each transaction variant and version.
//!
//! Every hash is the Pedersen array hash of an ordered field list that
//! starts with a variant-specific domain-separation prefix (the short
//! ASCII name of the variant read as a field element) and commits to
//! every field that affects execution: version, primary address, a
//! reserved zero for the unused entry-point selector, a sub-hash of the
//! variable-length payload, the declared fee bound, the chain identifier
//! and the nonce.  A version-two declare additionally commits to the
//! compiled class hash, after the nonce.

use vstd::prelude::*;

use crate::crypto::{pedersen_hash_array, pedersen_of};
use crate::felt::{all_wf, felt_vals, Felt};

verus! {

/// "invoke" as a field element value.
pub const PREFIX_INVOKE: u64 = 0x696e766f6b65;

/// "declare" as a field element value.
pub const PREFIX_DECLARE: u64 = 0x6465636c617265;

/// "deploy_account" as a field element value.
pub const PREFIX_DEPLOY_ACCOUNT: u128 = 0x6465706c6f795f6163636f756e74;

/// The domain-separation prefix of deploy-account transaction hashes.
pub fn prefix_deploy_account() -> (r: Felt)
    ensures
        r.wf(),
        r@ == PREFIX_DEPLOY_ACCOUNT,
{
    Felt::from_u128(PREFIX_DEPLOY_ACCOUNT)
}

/// The domain-separation prefix of declare transaction hashes.
pub fn prefix_declare() -> (r: Felt)
    ensures
        r.wf(),
        r@ == PREFIX_DECLARE,
{
    Felt::from_u64(PREFIX_DECLARE)
}

/// The domain-separation prefix of invoke transaction hashes.
pub fn prefix_invoke() -> (r: Felt)
    ensures
        r.wf(),
        r@ == PREFIX_INVOKE,
{
    Felt::from_u64(PREFIX_INVOKE)
}

/// The ordered field list an invoke (version 1) hash commits to.
pub open spec fn invoke_v1_fields(
    contract_address: int,
    calldata: Seq<int>,
    max_fee: int,
    chain_id: int,
    nonce: int,
) -> Seq<int> {
    seq![
        PREFIX_INVOKE as int,
        1,
        contract_address,
        0,
        pedersen_of(calldata),
        max_fee,
        chain_id,
        nonce,
    ]
}

/// The canonical hash of an invoke transaction, version 1.
pub open spec fn invoke_v1_hash(
    contract_address: int,
    calldata: Seq<int>,
    max_fee: int,
    chain_id: int,
    nonce: int,
) -> int {
    pedersen_of(invoke_v1_fields(contract_address, calldata, max_fee, chain_id, nonce))
}

/// The ordered field list a deploy-account hash commits to: the derived
/// contract address stands where a sender would, the constructor calldata
/// enters as a sub-hash, and the entry-point selector slot is reserved
/// at zero.
pub open spec fn deploy_account_fields(
    version: int,
    contract_address: int,
    constructor_calldata: Seq<int>,
    max_fee: int,
    chain_id: int,
    nonce: int,
) -> Seq<int> {
    seq![
        PREFIX_DEPLOY_ACCOUNT as int,
        version,
        contract_address,
        0,
        pedersen_of(constructor_calldata),
        max_fee,
        chain_id,
        nonce,
    ]
}

/// The canonical hash of a deploy-account transaction.
pub open spec fn deploy_account_hash(
    version: int,
    contract_address: int,
    constructor_calldata: Seq<int>,
    max_fee: int,
    chain_id: int,
    nonce: int,
) -> int {
    pedersen_of(
        deploy_account_fields(
            version,
            contract_address,
            constructor_calldata,
            max_fee,
            chain_id,
            nonce,
        ),
    )
}

/// The ordered field list a legacy (version 0 or 1) declare hash commits
/// to: the class hash enters as a one-element sub-hash and no compiled
/// class hash exists at these versions.
pub open spec fn declare_legacy_fields(
    version: int,
    sender_address: int,
    class_hash: int,
    max_fee: int,
    chain_id: int,
    nonce: int,
) -> Seq<int> {
    seq![
        PREFIX_DECLARE as int,
        version,
        sender_address,
        0,
        pedersen_of(seq![class_hash]),
        max_fee,
        chain_id,
        nonce,
    ]
}

/// The canonical hash of a legacy declare transaction.
pub open spec fn declare_legacy_hash(
    version: int,
    sender_address: int,
    class_hash: int,
    max_fee: int,
    chain_id: int,
    nonce: int,
) -> int {
    pedersen_of(
        declare_legacy_fields(version, sender_address, class_hash, max_fee, chain_id, nonce),
    )
}

/// The ordered field list a version-two declare hash commits to: the
/// legacy list at version two, extended with the compiled class hash.
pub open spec fn declare_v2_fields(
    sender_address: int,
    class_hash: int,
    max_fee: int,
    chain_id: int,
    nonce: int,
    compiled_class_hash: int,
) -> Seq<int> {
    declare_legacy_fields(2, sender_address, class_hash, max_fee, chain_id, nonce).push(
        compiled_class_hash,
    )
}

/// The canonical hash of a version-two declare transaction.
pub open spec fn declare_v2_hash(
    sender_address: int,
    class_hash: int,
    max_fee: int,
    chain_id: int,
    nonce: int,
    compiled_class_hash: int,
) -> int {
    pedersen_of(
        declare_v2_fields(sender_address, class_hash, max_fee, chain_id, nonce,
            compiled_class_hash),
    )
}

/// A version-two declare never hashes the field list of a legacy declare
/// built from otherwise identical fields: the lists differ in length, so
/// the two versions commit to distinct preimages of the array hash.
pub proof fn lemma_declare_field_lists_differ(
    legacy_version: int,
    sender_address: int,
    class_hash: int,
    max_fee: int,
    chain_id: int,
    nonce: int,
    compiled_class_hash: int,
)
    ensures
        declare_v2_fields(sender_address, class_hash, max_fee, chain_id, nonce,
            compiled_class_hash)
            != declare_legacy_fields(legacy_version, sender_address, class_hash, max_fee,
            chain_id, nonce),
{
    assert(declare_v2_fields(sender_address, class_hash, max_fee, chain_id, nonce,
        compiled_class_hash).len() == 9);
    assert(declare_legacy_fields(legacy_version, sender_address, class_hash, max_fee, chain_id,
        nonce).len() == 8);
}

/// Computes the canonical invoke (version 1) transaction hash.
pub fn compute_invoke_v1_transaction_hash(
    contract_address: &Felt,
    calldata: &Vec<Felt>,
    nonce: &Felt,
    max_fee: &Felt,
    chain_id: &Felt,
) -> (r: Felt)
    requires
        contract_address.wf(),
        all_wf(calldata@),
        nonce.wf(),
        max_fee.wf(),
        chain_id.wf(),
    ensures
        r.wf(),
        r@ == invoke_v1_hash(contract_address@, felt_vals(calldata@), max_fee@, chain_id@, nonce@),
{
    let calldata_hash = pedersen_hash_array(calldata);
    let mut fields: Vec<Felt> = Vec::new();
    fields.push(prefix_invoke());
    fields.push(Felt::from_u64(1));
    fields.push(*contract_address);
    fields.push(Felt::zero());
    fields.push(calldata_hash);
    fields.push(*max_fee);
    fields.push(*chain_id);
    fields.push(*nonce);
    assert(felt_vals(fields@) =~= invoke_v1_fields(
        contract_address@,
        felt_vals(calldata@),
        max_fee@,
        chain_id@,
        nonce@,
    ));
    pedersen_hash_array(&fields)
}

/// Computes the canonical deploy-account transaction hash.
pub fn compute_deploy_account_transaction_hash(
    version: &Felt,
    contract_address: &Felt,
    constructor_calldata: &Vec<Felt>,
    max_fee: &Felt,
    chain_id: &Felt,
    nonce: &Felt,
) -> (r: Felt)
    requires
        version.wf(),
        contract_address.wf(),
        all_wf(constructor_calldata@),
        max_fee.wf(),
        chain_id.wf(),
        nonce.wf(),
    ensures
        r.wf(),
        r@ == deploy_account_hash(version@, contract_address@, felt_vals(constructor_calldata@),
            max_fee@, chain_id@, nonce@),
{
    let calldata_hash = pedersen_hash_array(constructor_calldata);
    let mut fields: Vec<Felt> = Vec::new();
    fields.push(prefix_deploy_account());
    fields.push(*version);
    fields.push(*contract_address);
    fields.push(Felt::zero());
    fields.push(calldata_hash);
    fields.push(*max_fee);
    fields.push(*chain_id);
    fields.push(*nonce);
    assert(felt_vals(fields@) =~= deploy_account_fields(
        version@,
        contract_address@,
        felt_vals(constructor_calldata@),
        max_fee@,
        chain_id@,
        nonce@,
    ));
    pedersen_hash_array(&fields)
}

/// Computes the canonical legacy (version 0 or 1) declare hash.
pub fn compute_declare_legacy_transaction_hash(
    version: &Felt,
    sender_address: &Felt,
    class_hash: &Felt,
    max_fee: &Felt,
    chain_id: &Felt,
    nonce: &Felt,
) -> (r: Felt)
    requires
        version.wf(),
        sender_address.wf(),
        class_hash.wf(),
        max_fee.wf(),
        chain_id.wf(),
        nonce.wf(),
    ensures
        r.wf(),
        r@ == declare_legacy_hash(version@, sender_address@, class_hash@, max_fee@, chain_id@,
            nonce@),
{
    let mut class_hash_vec: Vec<Felt> = Vec::new();
    class_hash_vec.push(*class_hash);
    let class_hash_hash = pedersen_hash_array(&class_hash_vec);
    assert(felt_vals(class_hash_vec@) =~= seq![class_hash@]);
    let mut fields: Vec<Felt> = Vec::new();
    fields.push(prefix_declare());
    fields.push(*version);
    fields.push(*sender_address);
    fields.push(Felt::zero());
    fields.push(class_hash_hash);
    fields.push(*max_fee);
    fields.push(*chain_id);
    fields.push(*nonce);
    assert(felt_vals(fields@) =~= declare_legacy_fields(
        version@,
        sender_address@,
        class_hash@,
        max_fee@,
        chain_id@,
        nonce@,
    ));
    pedersen_hash_array(&fields)
}

/// Computes the canonical version-two declare hash.
pub fn compute_declare_v2_transaction_hash(
    sender_address: &Felt,
    class_hash: &Felt,
    max_fee: &Felt,
    chain_id: &Felt,
    nonce: &Felt,
    compiled_class_hash: &Felt,
) -> (r: Felt)
    requires
        sender_address.wf(),
        class_hash.wf(),
        max_fee.wf(),
        chain_id.wf(),
        nonce.wf(),
        compiled_class_hash.wf(),
    ensures
        r.wf(),
        r@ == declare_v2_hash(sender_address@, class_hash@, max_fee@, chain_id@, nonce@,
            compiled_class_hash@),
{
    let mut class_hash_vec: Vec<Felt> = Vec::new();
    class_hash_vec.push(*class_hash);
    let class_hash_hash = pedersen_hash_array(&class_hash_vec);
    assert(felt_vals(class_hash_vec@) =~= seq![class_hash@]);
    let mut fields: Vec<Felt> = Vec::new();
    fields.push(prefix_declare());
    fields.push(Felt::from_u64(2));
    fields.push(*sender_address);
    fields.push(Felt::zero());
    fields.push(class_hash_hash);
    fields.push(*max_fee);
    fields.push(*chain_id);
    fields.push(*nonce);
    fields.push(*compiled_class_hash);
    assert(felt_vals(fields@) =~= declare_v2_fields(
        sender_address@,
        class_hash@,
        max_fee@,
        chain_id@,
        nonce@,
        compiled_class_hash@,
    ));
    pedersen_hash_array(&fields)
}

} // verus!
