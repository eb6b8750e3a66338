//! A finite set of peer addresses.

use crate::addr::PeerAddr;
use vstd::prelude::*;
use vstd::std_specs::cmp::PartialEqSpecImpl;

verus! {

/// The peers known to hold one item. Each address is stored once; the order in
/// which addresses were added is of no account.
#[derive(Debug)]
pub struct PeerSet {
    addrs: Vec<PeerAddr>,
}

impl View for PeerSet {
    type V = Set<PeerAddr>;

    closed spec fn view(&self) -> Set<PeerAddr> {
        self.addrs@.to_set()
    }
}

impl PeerSet {
    #[verifier::type_invariant]
    spec fn stored_once(&self) -> bool {
        self.addrs@.no_duplicates()
    }

    /// Every peer set is finite, so that its cardinality is meaningful.
    pub broadcast proof fn lemma_finite(self)
        ensures
            #[trigger] self@.finite(),
    {
        vstd::seq_lib::seq_to_set_is_finite(self.addrs@);
    }

    /// The empty set.
    pub fn new() -> (set: Self)
        ensures
            set@ == Set::<PeerAddr>::empty(),
    {
        PeerSet { addrs: Vec::new() }
    }

    /// The number of addresses in the set.
    pub fn len(&self) -> (n: usize)
        ensures
            n == self@.len(),
    {
        proof {
            use_type_invariant(self);
            self.addrs@.unique_seq_to_set();
        }
        self.addrs.len()
    }

    /// Whether the set holds no address.
    pub fn is_empty(&self) -> (empty: bool)
        ensures
            empty == (self@ == Set::<PeerAddr>::empty()),
    {
        proof {
            if self.addrs@.len() > 0 {
                assert(self.addrs@.to_set().contains(self.addrs@[0]));
            } else {
                assert(self.addrs@.to_set() =~= Set::<PeerAddr>::empty());
            }
        }
        self.addrs.len() == 0
    }

    /// Whether `peer` is in the set.
    pub fn contains(&self, peer: PeerAddr) -> (found: bool)
        ensures
            found == self@.contains(peer),
    {
        let mut i: usize = 0;
        while i < self.addrs.len()
            invariant
                i <= self.addrs.len(),
                forall|j: int| 0 <= j < i ==> self.addrs@[j] != peer,
            decreases self.addrs.len() - i,
        {
            if self.addrs[i] == peer {
                return true;
            }
            i += 1;
        }
        false
    }

    /// Adds `peer` to the set; a peer that is already in it is not added again.
    /// Returns whether `peer` was new.
    pub fn insert(&mut self, peer: PeerAddr) -> (fresh: bool)
        ensures
            final(self)@ == old(self)@.insert(peer),
            fresh == !old(self)@.contains(peer),
    {
        proof {
            use_type_invariant(&*self);
        }
        if self.contains(peer) {
            false
        } else {
            let ghost before = self.addrs@;
            let mut addrs = Vec::new();
            std::mem::swap(&mut addrs, &mut self.addrs);
            addrs.push(peer);
            proof {
                before.lemma_push_to_set_commute(peer);
            }
            self.addrs = addrs;
            true
        }
    }

    /// The set of the addresses in `addrs`.
    pub fn from_vec(addrs: Vec<PeerAddr>) -> (set: Self)
        ensures
            set@ == addrs@.to_set(),
    {
        let mut set = PeerSet::new();
        let mut i: usize = 0;
        while i < addrs.len()
            invariant
                i <= addrs.len(),
                set@ == addrs@.take(i as int).to_set(),
            decreases addrs.len() - i,
        {
            proof {
                addrs@.take(i as int).lemma_push_to_set_commute(addrs@[i as int]);
                assert(addrs@.take(i as int).push(addrs@[i as int]) =~= addrs@.take(i + 1));
            }
            set.insert(addrs[i]);
            i += 1;
        }
        assert(addrs@.take(addrs@.len() as int) =~= addrs@);
        set
    }

    /// The addresses of the set, each once, in no particular order.
    pub fn to_vec(&self) -> (addrs: Vec<PeerAddr>)
        ensures
            addrs@.to_set() == self@,
            addrs@.no_duplicates(),
    {
        proof {
            use_type_invariant(self);
        }
        let mut out: Vec<PeerAddr> = Vec::new();
        let mut i: usize = 0;
        while i < self.addrs.len()
            invariant
                i <= self.addrs.len(),
                out@ == self.addrs@.take(i as int),
            decreases self.addrs.len() - i,
        {
            out.push(self.addrs[i]);
            i += 1;
        }
        assert(self.addrs@.take(self.addrs@.len() as int) =~= self.addrs@);
        out
    }

    /// Whether every address of `self` is in `other`.
    pub fn is_subset(&self, other: &PeerSet) -> (within: bool)
        ensures
            within == self@.subset_of(other@),
    {
        let mut i: usize = 0;
        while i < self.addrs.len()
            invariant
                i <= self.addrs.len(),
                forall|j: int| 0 <= j < i ==> other@.contains(self.addrs@[j]),
            decreases self.addrs.len() - i,
        {
            if !other.contains(self.addrs[i]) {
                return false;
            }
            i += 1;
        }
        true
    }
}

impl Clone for PeerSet {
    fn clone(&self) -> (copy: Self)
        ensures
            copy@ == self@,
    {
        proof {
            use_type_invariant(self);
        }
        let addrs = self.to_vec();
        PeerSet { addrs }
    }
}

impl PartialEq for PeerSet {
    /// Two peer sets are equal when they hold the same addresses.
    fn eq(&self, other: &PeerSet) -> (same: bool) {
        proof {
            self.lemma_finite();
            other.lemma_finite();
        }
        if self.len() == other.len() && self.is_subset(other) {
            proof {
                vstd::set_lib::lemma_subset_equality(self@, other@);
            }
            true
        } else {
            false
        }
    }
}

impl Eq for PeerSet {

}

impl PartialEqSpecImpl for PeerSet {
    open spec fn obeys_eq_spec() -> bool {
        true
    }

    open spec fn eq_spec(&self, other: &PeerSet) -> bool {
        self@ == other@
    }
}

} // verus!
