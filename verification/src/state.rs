//! The layered state store: the authoritative in-memory view of contract
//! storage, class bindings, nonces and declared classes.
//!
//! A [`CachedState`] is a copy-on-write overlay of writes over a read-only
//! [`DictStateReader`] base, so a fresh chain starts from an implicit
//! "everything is zero / undeclared" base and only touched cells incur
//! memory cost.  Writes are appended to the overlay and reads take the
//! most recent entry, falling back to the base and then to the protocol
//! defaults (zero for storage cells and nonces, absence for classes).

use vstd::prelude::*;

use crate::felt::{lemma_felt_eq_value, Felt};

verus! {

/// A state-store lookup miss for a required class binding.
#[derive(Clone, Copy, Debug, PartialEq, Eq, Structural)]
pub enum StateError {
    /// The contract address has no bound class.
    UndeclaredClass,
    /// The class hash was never declared.
    UndeclaredClassHash,
}

/// A declared contract class: the engine's registration record for the
/// executable form of a class.  The class payload itself is kept for the
/// external execution capability; the engine only reads the identifiers.
pub struct CompiledClass {
    /// The identifier of the compiled (executable) representation.
    pub compiled_class_hash: Felt,
    /// The raw class artifact the class was declared from.
    pub payload: Vec<u8>,
}

impl CompiledClass {
    pub open spec fn wf(self) -> bool {
        self.compiled_class_hash.wf()
    }
}

/// The last value bound to `key` in an append-ordered association
/// sequence, scanning from the most recent entry.
pub(crate) open spec fn assoc_get<V>(s: Seq<(Felt, V)>, key: int) -> Option<V>
    decreases s.len(),
{
    if s.len() == 0 {
        None
    } else if s.last().0@ == key {
        Some(s.last().1)
    } else {
        assoc_get(s.drop_last(), key)
    }
}

/// The last value bound to the pair `(a, k)` in an append-ordered
/// association sequence over two-part keys.
spec fn assoc_get2<V>(s: Seq<(Felt, Felt, V)>, a: int, k: int) -> Option<V>
    decreases s.len(),
{
    if s.len() == 0 {
        None
    } else if s.last().0@ == a && s.last().1@ == k {
        Some(s.last().2)
    } else {
        assoc_get2(s.drop_last(), a, k)
    }
}

proof fn lemma_assoc_get_push<V>(s: Seq<(Felt, V)>, e: (Felt, V), key: int)
    ensures
        assoc_get(s.push(e), key) == if e.0@ == key {
            Some(e.1)
        } else {
            assoc_get(s, key)
        },
{
    assert(s.push(e).last() == e);
    assert(s.push(e).drop_last() =~= s);
}

proof fn lemma_assoc_get2_push<V>(s: Seq<(Felt, Felt, V)>, e: (Felt, Felt, V), a: int, k: int)
    ensures
        assoc_get2(s.push(e), a, k) == if e.0@ == a && e.1@ == k {
            Some(e.2)
        } else {
            assoc_get2(s, a, k)
        },
{
    assert(s.push(e).last() == e);
    assert(s.push(e).drop_last() =~= s);
}

/// Finds the most recent binding of `key`, by a backward scan.
pub(crate) fn assoc_find<'a, V>(entries: &'a Vec<(Felt, V)>, key: &Felt) -> (r: Option<&'a V>)
    ensures
        match r {
            Some(v) => assoc_get(entries@, key@) == Some(*v),
            None => assoc_get(entries@, key@) is None,
        },
{
    let mut i: usize = entries.len();
    assert(entries@.take(i as int) =~= entries@);
    while i > 0
        invariant
            i <= entries@.len(),
            assoc_get(entries@, key@) == assoc_get(entries@.take(i as int), key@),
        decreases i,
    {
        i = i - 1;
        let e = &entries[i];
        proof {
            lemma_felt_eq_value(e.0, *key);
            assert(entries@.take(i + 1).last() == entries@[i as int]);
            assert(entries@.take(i + 1).drop_last() =~= entries@.take(i as int));
        }
        if e.0 == *key {
            return Some(&e.1);
        }
    }
    None
}

/// Finds the most recent binding of the pair `(a, k)`, by a backward scan.
fn assoc_find2<'a, V>(entries: &'a Vec<(Felt, Felt, V)>, a: &Felt, k: &Felt) -> (r: Option<&'a V>)
    ensures
        match r {
            Some(v) => assoc_get2(entries@, a@, k@) == Some(*v),
            None => assoc_get2(entries@, a@, k@) is None,
        },
{
    let mut i: usize = entries.len();
    assert(entries@.take(i as int) =~= entries@);
    while i > 0
        invariant
            i <= entries@.len(),
            assoc_get2(entries@, a@, k@) == assoc_get2(entries@.take(i as int), a@, k@),
        decreases i,
    {
        i = i - 1;
        let e = &entries[i];
        proof {
            lemma_felt_eq_value(e.0, *a);
            lemma_felt_eq_value(e.1, *k);
            assert(entries@.take(i + 1).last() == entries@[i as int]);
            assert(entries@.take(i + 1).drop_last() =~= entries@.take(i as int));
        }
        if e.0 == *a && e.1 == *k {
            return Some(&e.2);
        }
    }
    None
}

/// A read-only dictionary of state entries: the base snapshot a
/// [`CachedState`] overlays.  A fresh reader holds nothing, which the
/// protocol reads as "everything is zero / undeclared".
pub struct DictStateReader {
    storage: Vec<(Felt, Felt, Felt)>,
    nonces: Vec<(Felt, Felt)>,
    class_hashes: Vec<(Felt, Felt)>,
    classes: Vec<(Felt, CompiledClass)>,
}

impl DictStateReader {
    pub closed spec fn storage_entry(self, a: int, k: int) -> Option<Felt> {
        assoc_get2(self.storage@, a, k)
    }

    pub closed spec fn nonce_entry(self, a: int) -> Option<Felt> {
        assoc_get(self.nonces@, a)
    }

    pub closed spec fn class_hash_entry(self, a: int) -> Option<Felt> {
        assoc_get(self.class_hashes@, a)
    }

    pub closed spec fn class_entry(self, ch: int) -> Option<CompiledClass> {
        assoc_get(self.classes@, ch)
    }

    /// Every entry the reader holds is a well-formed field element.
    pub closed spec fn wf(self) -> bool {
        &&& forall|a: int, k: int|
            (#[trigger] self.storage_entry(a, k)) matches Some(v) ==> v.wf()
        &&& forall|a: int| (#[trigger] self.nonce_entry(a)) matches Some(v) ==> v.wf()
        &&& forall|a: int| (#[trigger] self.class_hash_entry(a)) matches Some(v) ==> v.wf()
        &&& forall|c: int| (#[trigger] self.class_entry(c)) matches Some(v) ==> v.wf()
    }

    /// An empty base snapshot: every cell zero, nothing declared.
    pub fn new() -> (r: DictStateReader)
        ensures
            r.wf(),
            forall|a: int, k: int| #[trigger] r.storage_entry(a, k) is None,
            forall|a: int| #[trigger] r.nonce_entry(a) is None,
            forall|a: int| #[trigger] r.class_hash_entry(a) is None,
            forall|c: int| #[trigger] r.class_entry(c) is None,
    {
        DictStateReader {
            storage: Vec::new(),
            nonces: Vec::new(),
            class_hashes: Vec::new(),
            classes: Vec::new(),
        }
    }
}

/// The copy-on-write state store: an overlay of writes over a read-only
/// base snapshot.  All reads observe all prior writes issued through the
/// same store instance, in program order.
pub struct CachedState {
    base: DictStateReader,
    writes: DictStateReader,
}

impl CachedState {
    /// The value of a storage cell: the protocol default `0` if the cell
    /// was never written, else the most recent write.
    pub closed spec fn storage_at(self, a: int, k: int) -> int {
        match self.writes.storage_entry(a, k) {
            Some(v) => v@,
            None => match self.base.storage_entry(a, k) {
                Some(v) => v@,
                None => 0,
            },
        }
    }

    /// The nonce of an account, `0` for unknown accounts.
    pub closed spec fn nonce_at(self, a: int) -> int {
        match self.writes.nonce_entry(a) {
            Some(v) => v@,
            None => match self.base.nonce_entry(a) {
                Some(v) => v@,
                None => 0,
            },
        }
    }

    /// The class bound to a contract address, if any.
    pub closed spec fn bound_class(self, a: int) -> Option<int> {
        match self.writes.class_hash_entry(a) {
            Some(v) => Some(v@),
            None => match self.base.class_hash_entry(a) {
                Some(v) => Some(v@),
                None => None,
            },
        }
    }

    /// The registration record of a declared class, if any.
    pub closed spec fn class_record(self, ch: int) -> Option<CompiledClass> {
        match self.writes.class_entry(ch) {
            Some(v) => Some(v),
            None => match self.base.class_entry(ch) {
                Some(v) => Some(v),
                None => None,
            },
        }
    }

    /// Whether a class hash has been declared.
    pub open spec fn is_declared(self, ch: int) -> bool {
        self.class_record(ch) is Some
    }

    pub closed spec fn wf(self) -> bool {
        self.base.wf() && self.writes.wf()
    }

    /// Wraps a base snapshot with an empty overlay: every read falls
    /// through to the base.
    pub fn new(base: DictStateReader) -> (r: CachedState)
        requires
            base.wf(),
        ensures
            r.wf(),
            forall|a: int, k: int| #[trigger] r.storage_at(a, k) == match base.storage_entry(a, k) {
                Some(v) => v@,
                None => 0,
            },
            forall|a: int| #[trigger] r.nonce_at(a) == match base.nonce_entry(a) {
                Some(v) => v@,
                None => 0,
            },
            forall|a: int| #[trigger] r.bound_class(a) == match base.class_hash_entry(a) {
                Some(v) => Some(v@),
                None => None::<int>,
            },
            forall|c: int| #[trigger] r.class_record(c) == base.class_entry(c),
    {
        CachedState { base, writes: DictStateReader::new() }
    }

    /// Reads a storage cell; never fails, an unset cell reads as `0`.
    pub fn get_storage_at(&self, addr: &Felt, key: &Felt) -> (r: Felt)
        requires
            self.wf(),
        ensures
            r.wf(),
            r@ == self.storage_at(addr@, key@),
    {
        proof {
            assert(self.writes.storage_entry(addr@, key@) matches Some(v) ==> v.wf());
            assert(self.base.storage_entry(addr@, key@) matches Some(v) ==> v.wf());
        }
        match assoc_find2(&self.writes.storage, addr, key) {
            Some(v) => *v,
            None => match assoc_find2(&self.base.storage, addr, key) {
                Some(v) => *v,
                None => Felt::zero(),
            },
        }
    }

    /// Overwrites a storage cell; visible to subsequent reads through
    /// this store instance.
    pub fn set_storage_at(&mut self, addr: &Felt, key: &Felt, value: &Felt)
        requires
            old(self).wf(),
            addr.wf(),
            key.wf(),
            value.wf(),
        ensures
            final(self).wf(),
            final(self).storage_at(addr@, key@) == value@,
            forall|a: int, k: int|
                !(a == addr@ && k == key@) ==> #[trigger] final(self).storage_at(a, k)
                    == old(self).storage_at(a, k),
            forall|a: int| #[trigger] final(self).nonce_at(a) == old(self).nonce_at(a),
            forall|a: int| #[trigger] final(self).bound_class(a) == old(self).bound_class(a),
            forall|c: int| #[trigger] final(self).class_record(c) == old(self).class_record(c),
    {
        let ghost pre = self.writes.storage@;
        self.writes.storage.push((*addr, *key, *value));
        proof {
            assert forall|a: int, k: int| #[trigger] self.writes.storage_entry(a, k)
                == (if a == addr@ && k == key@ {
                    Some(*value)
                } else {
                    old(self).writes.storage_entry(a, k)
                }) by {
                lemma_assoc_get2_push(pre, (*addr, *key, *value), a, k);
            }
            assert forall|a: int, k: int| (#[trigger] self.writes.storage_entry(a, k))
                matches Some(v) ==> v.wf() by {
                assert(old(self).writes.storage_entry(a, k) matches Some(w) ==> w.wf());
            }
            assert forall|x: int| #[trigger] self.writes.nonce_entry(x)
                == old(self).writes.nonce_entry(x) by {}
            assert forall|x: int| #[trigger] self.writes.class_hash_entry(x)
                == old(self).writes.class_hash_entry(x) by {}
            assert forall|x: int| #[trigger] self.writes.class_entry(x)
                == old(self).writes.class_entry(x) by {}
        }
    }

    /// Reads an account nonce; defaults to `0` for unknown accounts.
    pub fn get_nonce_at(&self, addr: &Felt) -> (r: Felt)
        requires
            self.wf(),
        ensures
            r.wf(),
            r@ == self.nonce_at(addr@),
    {
        proof {
            assert(self.writes.nonce_entry(addr@) matches Some(v) ==> v.wf());
            assert(self.base.nonce_entry(addr@) matches Some(v) ==> v.wf());
        }
        match assoc_find(&self.writes.nonces, addr) {
            Some(v) => *v,
            None => match assoc_find(&self.base.nonces, addr) {
                Some(v) => *v,
                None => Felt::zero(),
            },
        }
    }

    /// Overwrites an account nonce.
    pub fn set_nonce_at(&mut self, addr: &Felt, nonce: &Felt)
        requires
            old(self).wf(),
            addr.wf(),
            nonce.wf(),
        ensures
            final(self).wf(),
            final(self).nonce_at(addr@) == nonce@,
            forall|a: int|
                a != addr@ ==> #[trigger] final(self).nonce_at(a) == old(self).nonce_at(a),
            forall|a: int, k: int|
                #[trigger] final(self).storage_at(a, k) == old(self).storage_at(a, k),
            forall|a: int| #[trigger] final(self).bound_class(a) == old(self).bound_class(a),
            forall|c: int| #[trigger] final(self).class_record(c) == old(self).class_record(c),
    {
        let ghost pre = self.writes.nonces@;
        self.writes.nonces.push((*addr, *nonce));
        proof {
            assert forall|a: int| #[trigger] self.writes.nonce_entry(a)
                == (if a == addr@ {
                    Some(*nonce)
                } else {
                    old(self).writes.nonce_entry(a)
                }) by {
                lemma_assoc_get_push(pre, (*addr, *nonce), a);
            }
            assert forall|a: int| (#[trigger] self.writes.nonce_entry(a))
                matches Some(v) ==> v.wf() by {
                assert(old(self).writes.nonce_entry(a) matches Some(w) ==> w.wf());
            }
            assert forall|x: int, y: int| #[trigger] self.writes.storage_entry(x, y)
                == old(self).writes.storage_entry(x, y) by {}
            assert forall|x: int| #[trigger] self.writes.class_hash_entry(x)
                == old(self).writes.class_hash_entry(x) by {}
            assert forall|x: int| #[trigger] self.writes.class_entry(x)
                == old(self).writes.class_entry(x) by {}
        }
    }

    /// The class bound to a contract address; fails with
    /// [`StateError::UndeclaredClass`] exactly when no class is bound.
    pub fn get_class_hash_at(&self, addr: &Felt) -> (r: Result<Felt, StateError>)
        requires
            self.wf(),
        ensures
            match r {
                Ok(h) => h.wf() && self.bound_class(addr@) == Some(h@),
                Err(e) => e == StateError::UndeclaredClass && self.bound_class(addr@) is None,
            },
    {
        proof {
            assert(self.writes.class_hash_entry(addr@) matches Some(v) ==> v.wf());
            assert(self.base.class_hash_entry(addr@) matches Some(v) ==> v.wf());
        }
        match assoc_find(&self.writes.class_hashes, addr) {
            Some(v) => Ok(*v),
            None => match assoc_find(&self.base.class_hashes, addr) {
                Some(v) => Ok(*v),
                None => Err(StateError::UndeclaredClass),
            },
        }
    }

    /// Binds a class to a contract address.
    pub fn set_class_hash_at(&mut self, addr: &Felt, class_hash: &Felt)
        requires
            old(self).wf(),
            addr.wf(),
            class_hash.wf(),
        ensures
            final(self).wf(),
            final(self).bound_class(addr@) == Some(class_hash@),
            forall|a: int|
                a != addr@ ==> #[trigger] final(self).bound_class(a) == old(self).bound_class(a),
            forall|a: int, k: int|
                #[trigger] final(self).storage_at(a, k) == old(self).storage_at(a, k),
            forall|a: int| #[trigger] final(self).nonce_at(a) == old(self).nonce_at(a),
            forall|c: int| #[trigger] final(self).class_record(c) == old(self).class_record(c),
    {
        let ghost pre = self.writes.class_hashes@;
        self.writes.class_hashes.push((*addr, *class_hash));
        proof {
            assert forall|a: int| #[trigger] self.writes.class_hash_entry(a)
                == (if a == addr@ {
                    Some(*class_hash)
                } else {
                    old(self).writes.class_hash_entry(a)
                }) by {
                lemma_assoc_get_push(pre, (*addr, *class_hash), a);
            }
            assert forall|a: int| (#[trigger] self.writes.class_hash_entry(a))
                matches Some(v) ==> v.wf() by {
                assert(old(self).writes.class_hash_entry(a) matches Some(w) ==> w.wf());
            }
            assert forall|x: int, y: int| #[trigger] self.writes.storage_entry(x, y)
                == old(self).writes.storage_entry(x, y) by {}
            assert forall|x: int| #[trigger] self.writes.nonce_entry(x)
                == old(self).writes.nonce_entry(x) by {}
            assert forall|x: int| #[trigger] self.writes.class_entry(x)
                == old(self).writes.class_entry(x) by {}
        }
    }

    /// The registration record of a declared class; fails with
    /// [`StateError::UndeclaredClassHash`] exactly when the class hash
    /// was never declared.
    pub fn get_compiled_class(&self, class_hash: &Felt) -> (r: Result<&CompiledClass, StateError>)
        requires
            self.wf(),
        ensures
            match r {
                Ok(c) => self.class_record(class_hash@) == Some(*c) && c.wf(),
                Err(e) => e == StateError::UndeclaredClassHash
                    && self.class_record(class_hash@) is None,
            },
    {
        proof {
            assert(self.writes.class_entry(class_hash@) matches Some(v) ==> v.wf());
            assert(self.base.class_entry(class_hash@) matches Some(v) ==> v.wf());
        }
        match assoc_find(&self.writes.classes, class_hash) {
            Some(v) => Ok(v),
            None => match assoc_find(&self.base.classes, class_hash) {
                Some(v) => Ok(v),
                None => Err(StateError::UndeclaredClassHash),
            },
        }
    }

    /// Registers a class under its class hash.  Registration is
    /// idempotent by intent: re-declaring a class hash simply installs
    /// the most recent record, it is not an error.
    pub fn declare_class(&mut self, class_hash: &Felt, class: CompiledClass)
        requires
            old(self).wf(),
            class_hash.wf(),
            class.wf(),
        ensures
            final(self).wf(),
            final(self).class_record(class_hash@) == Some(class),
            forall|c: int|
                c != class_hash@ ==> #[trigger] final(self).class_record(c)
                    == old(self).class_record(c),
            forall|a: int, k: int|
                #[trigger] final(self).storage_at(a, k) == old(self).storage_at(a, k),
            forall|a: int| #[trigger] final(self).nonce_at(a) == old(self).nonce_at(a),
            forall|a: int| #[trigger] final(self).bound_class(a) == old(self).bound_class(a),
    {
        let ghost pre = self.writes.classes@;
        let ghost cls = class;
        self.writes.classes.push((*class_hash, class));
        proof {
            assert forall|c: int| #[trigger] self.writes.class_entry(c)
                == (if c == class_hash@ {
                    Some(cls)
                } else {
                    old(self).writes.class_entry(c)
                }) by {
                lemma_assoc_get_push(pre, (*class_hash, cls), c);
            }
            assert forall|c: int| (#[trigger] self.writes.class_entry(c))
                matches Some(v) ==> v.wf() by {
                assert(old(self).writes.class_entry(c) matches Some(w) ==> w.wf());
            }
            assert forall|x: int, y: int| #[trigger] self.writes.storage_entry(x, y)
                == old(self).writes.storage_entry(x, y) by {}
            assert forall|x: int| #[trigger] self.writes.nonce_entry(x)
                == old(self).writes.nonce_entry(x) by {}
            assert forall|x: int| #[trigger] self.writes.class_hash_entry(x)
                == old(self).writes.class_hash_entry(x) by {}
        }
    }
}

} // verus!
