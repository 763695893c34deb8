//! Typed transactions.  A transaction's hash is derived at construction
//! and must match the canonical algorithm for its variant and version;
//! it is never caller-supplied and never changes afterwards.  The
//! well-formedness predicates below state that invariant, relative to the
//! chain identifier the hash commits to.

use vstd::prelude::*;

use crate::crypto::{calculate_contract_address, contract_address_of};
use crate::felt::{all_wf, felt_vals, Felt};
use crate::hash::{
    compute_declare_legacy_transaction_hash, compute_declare_v2_transaction_hash,
    compute_deploy_account_transaction_hash, compute_invoke_v1_transaction_hash,
    declare_legacy_hash, declare_v2_hash, deploy_account_hash, invoke_v1_hash,
};

verus! {

/// An invoke (version 1) transaction: a call into an existing contract.
pub struct InvokeTransaction {
    pub contract_address: Felt,
    pub calldata: Vec<Felt>,
    pub nonce: Felt,
    pub max_fee: Felt,
    pub signature: Vec<Felt>,
    pub transaction_hash: Felt,
}

impl InvokeTransaction {
    pub open spec fn wf(self, chain_id: int) -> bool {
        &&& self.contract_address.wf()
        &&& all_wf(self.calldata@)
        &&& self.nonce.wf()
        &&& self.max_fee.wf()
        &&& all_wf(self.signature@)
        &&& self.transaction_hash.wf()
        &&& self.transaction_hash@ == invoke_v1_hash(
            self.contract_address@,
            felt_vals(self.calldata@),
            self.max_fee@,
            chain_id,
            self.nonce@,
        )
    }

    /// Assembles an invoke transaction, deriving its canonical hash.
    pub fn new(
        contract_address: Felt,
        calldata: Vec<Felt>,
        nonce: Felt,
        max_fee: Felt,
        signature: Vec<Felt>,
        chain_id: &Felt,
    ) -> (r: InvokeTransaction)
        requires
            contract_address.wf(),
            all_wf(calldata@),
            nonce.wf(),
            max_fee.wf(),
            all_wf(signature@),
            chain_id.wf(),
        ensures
            r.wf(chain_id@),
            r.contract_address == contract_address,
            r.calldata == calldata,
            r.nonce == nonce,
            r.max_fee == max_fee,
            r.signature == signature,
    {
        let transaction_hash = compute_invoke_v1_transaction_hash(
            &contract_address,
            &calldata,
            &nonce,
            &max_fee,
            chain_id,
        );
        InvokeTransaction { contract_address, calldata, nonce, max_fee, signature, transaction_hash }
    }
}

/// A deploy-account transaction: instantiates an account contract at the
/// address derived from its salt, class hash and constructor calldata.
pub struct DeployAccountTransaction {
    pub version: Felt,
    pub class_hash: Felt,
    pub contract_address: Felt,
    pub contract_address_salt: Felt,
    pub constructor_calldata: Vec<Felt>,
    pub nonce: Felt,
    pub max_fee: Felt,
    pub signature: Vec<Felt>,
    pub transaction_hash: Felt,
}

impl DeployAccountTransaction {
    pub open spec fn wf(self, chain_id: int) -> bool {
        &&& self.version.wf()
        &&& self.class_hash.wf()
        &&& self.contract_address.wf()
        &&& self.contract_address_salt.wf()
        &&& all_wf(self.constructor_calldata@)
        &&& self.nonce.wf()
        &&& self.max_fee.wf()
        &&& all_wf(self.signature@)
        &&& self.transaction_hash.wf()
        // Accounts cannot have a prior nonce before they exist.
        &&& self.nonce@ == 0
        &&& self.contract_address@ == contract_address_of(
            self.contract_address_salt@,
            self.class_hash@,
            felt_vals(self.constructor_calldata@),
        )
        &&& self.transaction_hash@ == deploy_account_hash(
            self.version@,
            self.contract_address@,
            felt_vals(self.constructor_calldata@),
            self.max_fee@,
            chain_id,
            self.nonce@,
        )
    }

    /// Assembles a deploy-account transaction, deriving the contract
    /// address and the canonical hash; the nonce is fixed at zero.
    pub fn new(
        class_hash: Felt,
        version: Felt,
        contract_address_salt: Felt,
        constructor_calldata: Vec<Felt>,
        signature: Vec<Felt>,
        max_fee: Felt,
        chain_id: &Felt,
    ) -> (r: DeployAccountTransaction)
        requires
            class_hash.wf(),
            version.wf(),
            contract_address_salt.wf(),
            all_wf(constructor_calldata@),
            all_wf(signature@),
            max_fee.wf(),
            chain_id.wf(),
        ensures
            r.wf(chain_id@),
            r.version == version,
            r.class_hash == class_hash,
            r.contract_address_salt == contract_address_salt,
            r.constructor_calldata == constructor_calldata,
            r.max_fee == max_fee,
            r.signature == signature,
            r.nonce@ == 0,
    {
        let contract_address = calculate_contract_address(
            &contract_address_salt,
            &class_hash,
            &constructor_calldata,
        );
        let nonce = Felt::zero();
        let transaction_hash = compute_deploy_account_transaction_hash(
            &version,
            &contract_address,
            &constructor_calldata,
            &max_fee,
            chain_id,
            &nonce,
        );
        DeployAccountTransaction {
            version,
            class_hash,
            contract_address,
            contract_address_salt,
            constructor_calldata,
            nonce,
            max_fee,
            signature,
            transaction_hash,
        }
    }
}

/// A declare transaction: registers a contract class.  Versions zero and
/// one are legacy: they derive no class hash from the payload and leave
/// both class identifiers at zero.  Version two commits to the class hash
/// and the compiled class hash.
pub struct DeclareTransaction {
    pub version: Felt,
    pub class_hash: Felt,
    pub compiled_class_hash: Felt,
    pub sender_address: Felt,
    pub nonce: Felt,
    pub max_fee: Felt,
    pub signature: Vec<Felt>,
    pub transaction_hash: Felt,
}

impl DeclareTransaction {
    pub open spec fn wf(self, chain_id: int) -> bool {
        &&& self.version.wf()
        &&& self.class_hash.wf()
        &&& self.compiled_class_hash.wf()
        &&& self.sender_address.wf()
        &&& self.nonce.wf()
        &&& self.max_fee.wf()
        &&& all_wf(self.signature@)
        &&& self.transaction_hash.wf()
        &&& self.version@ == 0 || self.version@ == 1 || self.version@ == 2
        &&& if self.version@ == 2 {
            self.transaction_hash@ == declare_v2_hash(
                self.sender_address@,
                self.class_hash@,
                self.max_fee@,
                chain_id,
                self.nonce@,
                self.compiled_class_hash@,
            )
        } else {
            // Legacy declares leave both class identifiers at zero.
            &&& self.class_hash@ == 0
            &&& self.compiled_class_hash@ == 0
            &&& self.transaction_hash@ == declare_legacy_hash(
                self.version@,
                self.sender_address@,
                self.class_hash@,
                self.max_fee@,
                chain_id,
                self.nonce@,
            )
        }
    }

    /// Assembles a legacy declare transaction (version 0 or 1): no class
    /// hash is derived from the payload, both identifiers stay zero.
    pub fn new_legacy(
        version: Felt,
        sender_address: Felt,
        nonce: Felt,
        max_fee: Felt,
        signature: Vec<Felt>,
        chain_id: &Felt,
    ) -> (r: DeclareTransaction)
        requires
            version@ == 0 || version@ == 1,
            version.wf(),
            sender_address.wf(),
            nonce.wf(),
            max_fee.wf(),
            all_wf(signature@),
            chain_id.wf(),
        ensures
            r.wf(chain_id@),
            r.version == version,
            r.class_hash@ == 0,
            r.compiled_class_hash@ == 0,
            r.sender_address == sender_address,
            r.nonce == nonce,
            r.max_fee == max_fee,
            r.signature == signature,
    {
        let class_hash = Felt::zero();
        let transaction_hash = compute_declare_legacy_transaction_hash(
            &version,
            &sender_address,
            &class_hash,
            &max_fee,
            chain_id,
            &nonce,
        );
        DeclareTransaction {
            version,
            class_hash,
            compiled_class_hash: Felt::zero(),
            sender_address,
            nonce,
            max_fee,
            signature,
            transaction_hash,
        }
    }

    /// Assembles a version-two declare transaction for a derived class
    /// hash and compiled class hash.
    pub fn new_v2(
        sender_address: Felt,
        nonce: Felt,
        max_fee: Felt,
        signature: Vec<Felt>,
        class_hash: Felt,
        compiled_class_hash: Felt,
        chain_id: &Felt,
    ) -> (r: DeclareTransaction)
        requires
            sender_address.wf(),
            nonce.wf(),
            max_fee.wf(),
            all_wf(signature@),
            class_hash.wf(),
            compiled_class_hash.wf(),
            chain_id.wf(),
        ensures
            r.wf(chain_id@),
            r.version@ == 2,
            r.class_hash == class_hash,
            r.compiled_class_hash == compiled_class_hash,
            r.sender_address == sender_address,
            r.nonce == nonce,
            r.max_fee == max_fee,
            r.signature == signature,
    {
        let version = Felt::from_u64(2);
        let transaction_hash = compute_declare_v2_transaction_hash(
            &sender_address,
            &class_hash,
            &max_fee,
            chain_id,
            &nonce,
            &compiled_class_hash,
        );
        DeclareTransaction {
            version,
            class_hash,
            compiled_class_hash,
            sender_address,
            nonce,
            max_fee,
            signature,
            transaction_hash,
        }
    }
}

/// A tagged transaction variant.
pub enum Transaction {
    Invoke(InvokeTransaction),
    DeployAccount(DeployAccountTransaction),
    Declare(DeclareTransaction),
}

impl Transaction {
    pub open spec fn wf(self, chain_id: int) -> bool {
        match self {
            Transaction::Invoke(tx) => tx.wf(chain_id),
            Transaction::DeployAccount(tx) => tx.wf(chain_id),
            Transaction::Declare(tx) => tx.wf(chain_id),
        }
    }

    /// The derived identifier of the transaction.
    pub open spec fn spec_transaction_hash(self) -> Felt {
        match self {
            Transaction::Invoke(tx) => tx.transaction_hash,
            Transaction::DeployAccount(tx) => tx.transaction_hash,
            Transaction::Declare(tx) => tx.transaction_hash,
        }
    }

    /// The derived identifier of the transaction.
    pub fn transaction_hash(&self) -> (r: Felt)
        ensures
            r == self.spec_transaction_hash(),
    {
        match self {
            Transaction::Invoke(tx) => tx.transaction_hash,
            Transaction::DeployAccount(tx) => tx.transaction_hash,
            Transaction::Declare(tx) => tx.transaction_hash,
        }
    }
}

} // verus!
