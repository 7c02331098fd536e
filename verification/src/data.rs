//! Key/value storage interfaces of the data layer.
//!
//! [`Storage`] is the plain capability set over a keyed mapping;
//! [`MerkleStorage`] scopes the mapping by a parent identifier and adds a
//! content-addressed root per parent. The backing store is supplied by an
//! external component; the interfaces fix how callers interact with it.
//!
//! Any type that owns a conforming store through one level of indirection
//! satisfies the same interface by forwarding every call unchanged; this
//! delegation is written out per owning type (boxes and mutable
//! references), and each forwarding impl is held to the interface's full
//! contract.

use crate::types::Bytes32;
use std::collections::HashMap;
use vstd::prelude::*;

verus! {

/// Capability set `{insert, remove, get, contains_key}` over keys `K` and
/// values `V`, parameterized by an error type `E`.
///
/// The store is modelled by the mapping [`Storage::contents`]. A failed
/// operation leaves the mapping unchanged: an error means the operation
/// did not occur.
pub trait Storage<K, V, E> {
    /// The mapping the store currently holds.
    spec fn contents(&self) -> Map<K, V>;

    /// Upserts; returns the previous value if the key existed, `None`
    /// otherwise.
    fn insert(&mut self, key: &K, value: &V) -> (r: Result<Option<V>, E>)
        ensures
            r is Ok ==> final(self).contents() == old(self).contents().insert(*key, *value),
            r is Ok ==> r->Ok_0 == (if old(self).contents().contains_key(*key) {
                Some(old(self).contents()[*key])
            } else {
                None::<V>
            }),
            r is Err ==> final(self).contents() == old(self).contents(),
    ;

    /// Deletes if present; returns the removed value or `None`.
    fn remove(&mut self, key: &K) -> (r: Result<Option<V>, E>)
        ensures
            r is Ok ==> final(self).contents() == old(self).contents().remove(*key),
            r is Ok ==> r->Ok_0 == (if old(self).contents().contains_key(*key) {
                Some(old(self).contents()[*key])
            } else {
                None::<V>
            }),
            r is Err ==> final(self).contents() == old(self).contents(),
    ;

    /// Read-only lookup.
    fn get(&self, key: &K) -> (r: Result<Option<V>, E>)
        ensures
            r is Ok ==> r->Ok_0 == (if self.contents().contains_key(*key) {
                Some(self.contents()[*key])
            } else {
                None::<V>
            }),
    ;

    /// Existence check without materializing the value.
    fn contains_key(&self, key: &K) -> (r: Result<bool, E>)
        ensures
            r is Ok ==> r->Ok_0 == self.contents().contains_key(*key),
    ;
}

/// The four operations of [`Storage`], additionally scoped by a parent
/// identifier `P`, plus a content-addressed root per parent.
///
/// Each parent owns an independent mapping; an operation under one parent
/// leaves every other parent's mapping unchanged, and a failed operation
/// leaves every mapping unchanged. The root of a parent is the digest the
/// implementation computes of that parent's current mapping, so it
/// reflects all prior committed mutations to that mapping.
pub trait MerkleStorage<P, K, V, E> {
    /// The mapping currently held under `parent`.
    spec fn contents(&self, parent: P) -> Map<K, V>;

    /// The digest the implementation computes of one parent's mapping.
    spec fn digest(m: Map<K, V>) -> Bytes32;

    /// Upserts under `parent`; returns the previous value if the key
    /// existed there, `None` otherwise.
    fn insert(&mut self, parent: &P, key: &K, value: &V) -> (r: Result<Option<V>, E>)
        ensures
            r is Ok ==> final(self).contents(*parent) == old(self).contents(*parent).insert(
                *key,
                *value,
            ),
            r is Ok ==> r->Ok_0 == (if old(self).contents(*parent).contains_key(*key) {
                Some(old(self).contents(*parent)[*key])
            } else {
                None::<V>
            }),
            forall|p: P|
                p != *parent ==> #[trigger] final(self).contents(p) == old(self).contents(p),
            r is Err ==> forall|p: P| #[trigger]
                final(self).contents(p) == old(self).contents(p),
    ;

    /// Deletes under `parent` if present; returns the removed value or
    /// `None`.
    fn remove(&mut self, parent: &P, key: &K) -> (r: Result<Option<V>, E>)
        ensures
            r is Ok ==> final(self).contents(*parent) == old(self).contents(*parent).remove(*key),
            r is Ok ==> r->Ok_0 == (if old(self).contents(*parent).contains_key(*key) {
                Some(old(self).contents(*parent)[*key])
            } else {
                None::<V>
            }),
            forall|p: P|
                p != *parent ==> #[trigger] final(self).contents(p) == old(self).contents(p),
            r is Err ==> forall|p: P| #[trigger]
                final(self).contents(p) == old(self).contents(p),
    ;

    /// Read-only lookup under `parent`.
    fn get(&self, parent: &P, key: &K) -> (r: Result<Option<V>, E>)
        ensures
            r is Ok ==> r->Ok_0 == (if self.contents(*parent).contains_key(*key) {
                Some(self.contents(*parent)[*key])
            } else {
                None::<V>
            }),
    ;

    /// Existence check under `parent` without materializing the value.
    fn contains_key(&self, parent: &P, key: &K) -> (r: Result<bool, E>)
        ensures
            r is Ok ==> r->Ok_0 == self.contents(*parent).contains_key(*key),
    ;

    /// The current content-addressed summary of the parent's mapping.
    fn root(&mut self, parent: &P) -> (r: Result<Bytes32, E>)
        ensures
            forall|p: P| #[trigger] final(self).contents(p) == old(self).contents(p),
            r is Ok ==> r->Ok_0 == Self::digest(old(self).contents(*parent)),
    ;
}

/// Delegation rule for boxed stores: an owner of a conforming store
/// satisfies the same interface by forwarding every call unchanged to the
/// owned instance. Verification holds each forwarding method to the full
/// contract of the interface.
impl<K, V, E, S: Storage<K, V, E>> Storage<K, V, E> for Box<S> {
    open spec fn contents(&self) -> Map<K, V> {
        (**self).contents()
    }

    fn insert(&mut self, key: &K, value: &V) -> (r: Result<Option<V>, E>) {
        (**self).insert(key, value)
    }

    fn remove(&mut self, key: &K) -> (r: Result<Option<V>, E>) {
        (**self).remove(key)
    }

    fn get(&self, key: &K) -> (r: Result<Option<V>, E>) {
        (**self).get(key)
    }

    fn contains_key(&self, key: &K) -> (r: Result<bool, E>) {
        (**self).contains_key(key)
    }
}

/// Delegation rule for boxed Merkleized stores, as for [`Storage`].
impl<P, K, V, E, X: MerkleStorage<P, K, V, E>> MerkleStorage<P, K, V, E> for Box<X> {
    open spec fn contents(&self, parent: P) -> Map<K, V> {
        (**self).contents(parent)
    }

    open spec fn digest(m: Map<K, V>) -> Bytes32 {
        X::digest(m)
    }

    fn insert(&mut self, parent: &P, key: &K, value: &V) -> (r: Result<Option<V>, E>) {
        (**self).insert(parent, key, value)
    }

    fn remove(&mut self, parent: &P, key: &K) -> (r: Result<Option<V>, E>) {
        (**self).remove(parent, key)
    }

    fn get(&self, parent: &P, key: &K) -> (r: Result<Option<V>, E>) {
        (**self).get(parent, key)
    }

    fn contains_key(&self, parent: &P, key: &K) -> (r: Result<bool, E>) {
        (**self).contains_key(parent, key)
    }

    fn root(&mut self, parent: &P) -> (r: Result<Bytes32, E>) {
        (**self).root(parent)
    }
}

/// Delegation rule for a mutable reference: a holder of exclusive access
/// to a conforming store satisfies the same interface by forwarding.
impl<K, V, E, S: Storage<K, V, E>> Storage<K, V, E> for &mut S {
    open spec fn contents(&self) -> Map<K, V> {
        (**self).contents()
    }

    fn insert(&mut self, key: &K, value: &V) -> (r: Result<Option<V>, E>) {
        (**self).insert(key, value)
    }

    fn remove(&mut self, key: &K) -> (r: Result<Option<V>, E>) {
        (**self).remove(key)
    }

    fn get(&self, key: &K) -> (r: Result<Option<V>, E>) {
        (**self).get(key)
    }

    fn contains_key(&self, key: &K) -> (r: Result<bool, E>) {
        (**self).contains_key(key)
    }
}

/// Delegation rule for a mutable reference to a Merkleized store.
impl<P, K, V, E, X: MerkleStorage<P, K, V, E>> MerkleStorage<P, K, V, E> for &mut X {
    open spec fn contents(&self, parent: P) -> Map<K, V> {
        (**self).contents(parent)
    }

    open spec fn digest(m: Map<K, V>) -> Bytes32 {
        X::digest(m)
    }

    fn insert(&mut self, parent: &P, key: &K, value: &V) -> (r: Result<Option<V>, E>) {
        (**self).insert(parent, key, value)
    }

    fn remove(&mut self, parent: &P, key: &K) -> (r: Result<Option<V>, E>) {
        (**self).remove(parent, key)
    }

    fn get(&self, parent: &P, key: &K) -> (r: Result<Option<V>, E>) {
        (**self).get(parent, key)
    }

    fn contains_key(&self, parent: &P, key: &K) -> (r: Result<bool, E>) {
        (**self).contains_key(parent, key)
    }

    fn root(&mut self, parent: &P) -> (r: Result<Bytes32, E>) {
        (**self).root(parent)
    }
}

/// An in-memory word-to-word store: a backing store for the plain
/// interface, also the ground instance the interface is tested against.
pub struct MemoryStorage {
    map: HashMap<u64, u64>,
}

impl MemoryStorage {
    /// The mapping the store currently holds.
    pub closed spec fn contents_map(&self) -> Map<u64, u64> {
        self.map@
    }

    /// Creates an empty store.
    pub fn new() -> (r: Self)
        ensures
            r.contents_map() == Map::<u64, u64>::empty(),
    {
        MemoryStorage { map: HashMap::new() }
    }
}

impl<E> Storage<u64, u64, E> for MemoryStorage {
    open spec fn contents(&self) -> Map<u64, u64> {
        self.contents_map()
    }

    fn insert(&mut self, key: &u64, value: &u64) -> (r: Result<Option<u64>, E>) {
        Ok(self.map.insert(*key, *value))
    }

    fn remove(&mut self, key: &u64) -> (r: Result<Option<u64>, E>) {
        Ok(self.map.remove(key))
    }

    fn get(&self, key: &u64) -> (r: Result<Option<u64>, E>) {
        match self.map.get(key) {
            Some(v) => Ok(Some(*v)),
            None => Ok(None),
        }
    }

    fn contains_key(&self, key: &u64) -> (r: Result<bool, E>) {
        Ok(self.map.contains_key(key))
    }
}

} // verus!
