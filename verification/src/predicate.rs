//! Predicates of the payment scheme, as far as they are known by name.

use std::marker::PhantomData;
use vstd::prelude::*;

verus! {

/// The length of the identity that a predicate has by default.
pub const DEFAULT_IDENTITY_LEN: usize = 32;

/// A predicate over the components `C` of a payment scheme, known by its
/// identity: the bytes that stand for the predicate wherever it is referred
/// to. The view of a predicate is that identity.
pub struct DPCPredicate<C> {
    identity: Vec<u8>,
    _components: PhantomData<C>,
}

impl<C> View for DPCPredicate<C> {
    type V = Seq<u8>;

    closed spec fn view(&self) -> Seq<u8> {
        self.identity@
    }
}

impl<C> DPCPredicate<C> {
    /// The predicate with the identity `identity`.
    pub fn new(identity: Vec<u8>) -> (predicate: Self)
        ensures
            predicate@ == identity@,
    {
        DPCPredicate { identity, _components: PhantomData }
    }

    /// The compact representation of the predicate: a copy of its identity.
    pub fn into_compact_repr(&self) -> (bytes: Vec<u8>)
        ensures
            bytes@ == self@,
    {
        self.identity.clone()
    }
}

impl<C> Default for DPCPredicate<C> {
    /// The predicate whose identity is all zero.
    fn default() -> (predicate: Self)
        ensures
            predicate@ == Seq::new(DEFAULT_IDENTITY_LEN as nat, |i: int| 0u8),
    {
        DPCPredicate { identity: vec![0u8; DEFAULT_IDENTITY_LEN], _components: PhantomData }
    }
}

impl<C> Clone for DPCPredicate<C> {
    fn clone(&self) -> (copy: Self)
        ensures
            copy@ == self@,
    {
        DPCPredicate { identity: self.into_compact_repr(), _components: PhantomData }
    }
}

} // verus!
