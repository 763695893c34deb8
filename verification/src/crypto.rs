//! The prime-field hash primitives, consumed as an external capability.
//!
//! The engine never computes a Pedersen or Poseidon hash itself: each
//! primitive is reached through one trusted wrapper, and the value each
//! call returns is given a name that the rest of the library's contracts
//! speak of.  Every wrapper converts between the library's limb-based
//! field elements and the capability's own element type by the big-endian
//! byte representation, which both sides define.

use vstd::prelude::*;

use crate::felt::{felt_vals, all_wf, Felt};

verus! {

/// The Pedersen array hash of a sequence of field-element values: the
/// domain-separated, length-committing hash the protocol builds every
/// transaction identifier from.
pub uninterp spec fn pedersen_of(elems: Seq<int>) -> int;

/// The contract address derived from a salt, a class hash and the
/// constructor calldata, with the deployer address fixed at zero.
pub uninterp spec fn contract_address_of(salt: int, class_hash: int, calldata: Seq<int>) -> int;

/// The storage-slot address of a named contract variable applied to key
/// arguments; the variable name is a sequence of ASCII characters.
pub uninterp spec fn storage_var_address_of(var_name: Seq<char>, args: Seq<int>) -> int;

/// The content-addressed class hash of a raw class payload, when the
/// payload is a well-formed class artifact; `None` when it is not.
pub uninterp spec fn class_hash_of(payload: Seq<u8>) -> Option<int>;

/// Relies on `starknet_core::crypto::compute_hash_on_elements`: the
/// Pedersen array hash, a pure function of the element values alone.
#[verifier::external_body]
pub(crate) fn pedersen_hash_array(data: &Vec<Felt>) -> (r: Felt)
    requires
        all_wf(data@),
    ensures
        r.wf(),
        r@ == pedersen_of(felt_vals(data@)),
{
    let elems: Vec<starknet_core::types::Felt> = data.iter().map(|f| {
        let mut b = [0u8; 32];
        b[0..16].copy_from_slice(&f.hi.to_be_bytes());
        b[16..32].copy_from_slice(&f.lo.to_be_bytes());
        starknet_core::types::Felt::from_bytes_be(&b)
    }).collect();
    let h = starknet_core::crypto::compute_hash_on_elements(&elems).to_bytes_be();
    Felt {
        hi: u128::from_be_bytes(h[0..16].try_into().unwrap()),
        lo: u128::from_be_bytes(h[16..32].try_into().unwrap()),
    }
}

/// Relies on `starknet_core::utils::get_contract_address` with the zero
/// deployer address: the deterministic deployment address, a pure
/// function of salt, class hash and constructor calldata alone.
#[verifier::external_body]
pub(crate) fn calculate_contract_address(
    salt: &Felt,
    class_hash: &Felt,
    constructor_calldata: &Vec<Felt>,
) -> (r: Felt)
    requires
        salt.wf(),
        class_hash.wf(),
        all_wf(constructor_calldata@),
    ensures
        r.wf(),
        r@ == contract_address_of(salt@, class_hash@, felt_vals(constructor_calldata@)),
{
    let cd: Vec<starknet_core::types::Felt> = constructor_calldata.iter()
        .map(|f| starknet_core::types::Felt::from_hex(&format!("0x{:032x}{:032x}", f.hi, f.lo)).unwrap())
        .collect();
    let a = starknet_core::utils::get_contract_address(
        starknet_core::types::Felt::from_hex(&format!("0x{:032x}{:032x}", salt.hi, salt.lo)).unwrap(),
        starknet_core::types::Felt::from_hex(&format!("0x{:032x}{:032x}", class_hash.hi, class_hash.lo)).unwrap(),
        &cd,
        starknet_core::types::Felt::ZERO,
    ).to_bytes_be();
    Felt {
        hi: u128::from_be_bytes(a[0..16].try_into().unwrap()),
        lo: u128::from_be_bytes(a[16..32].try_into().unwrap()),
    }
}

/// Relies on `starknet_core::utils::get_storage_var_address`: the
/// storage-slot address of a contract variable, a pure function of the
/// variable name and key arguments alone; the call errs only on a
/// non-ASCII name, which the precondition rules out.
#[verifier::external_body]
pub(crate) fn get_storage_var_address(var_name: &str, args: &Vec<Felt>) -> (r: Felt)
    requires
        vstd::string::is_ascii(var_name),
        all_wf(args@),
    ensures
        r.wf(),
        r@ == storage_var_address_of(var_name@, felt_vals(args@)),
{
    let a: Vec<starknet_core::types::Felt> = args.iter()
        .map(|f| starknet_core::types::Felt::from_hex(&format!("0x{:032x}{:032x}", f.hi, f.lo)).unwrap())
        .collect();
    let h = starknet_core::utils::get_storage_var_address(var_name, &a).unwrap().to_bytes_be();
    Felt {
        hi: u128::from_be_bytes(h[0..16].try_into().unwrap()),
        lo: u128::from_be_bytes(h[16..32].try_into().unwrap()),
    }
}

/// Relies on `starknet_core::types::contract::SierraClass::class_hash`,
/// with `serde_json::from_slice` converting the raw payload bytes into the
/// call's argument: whether the payload is a well-formed class artifact,
/// and the class hash it denotes, depend on the payload bytes alone.
#[verifier::external_body]
pub(crate) fn sierra_class_hash(payload: &[u8]) -> (r: Option<Felt>)
    ensures
        match r {
            Some(h) => h.wf() && class_hash_of(payload@) == Some(h@),
            None => class_hash_of(payload@) is None,
        },
{
    let class: starknet_core::types::contract::SierraClass = match serde_json::from_slice(payload) {
        Ok(c) => c,
        Err(_) => { return None; },
    };
    let h = match class.class_hash() {
        Ok(h) => h.to_bytes_be(),
        Err(_) => { return None; },
    };
    Some(Felt {
        hi: u128::from_be_bytes(h[0..16].try_into().unwrap()),
        lo: u128::from_be_bytes(h[16..32].try_into().unwrap()),
    })
}

} // verus!
