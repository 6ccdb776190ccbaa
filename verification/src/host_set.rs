//! A finite set of host addresses.

use vstd::prelude::*;
use crate::address::IpAddress;

verus! {

/// A set of addresses, kept as a list in which no address occurs twice. Its
/// view is the set.
#[derive(Debug)]
pub struct HostSet {
    items: Vec<IpAddress>,
}

impl View for HostSet {
    type V = Set<IpAddress>;

    closed spec fn view(&self) -> Set<IpAddress> {
        self.items@.to_set()
    }
}

impl HostSet {
    #[verifier::type_invariant]
    spec fn distinct(&self) -> bool {
        self.items@.no_duplicates()
    }

    /// The empty set.
    pub fn new() -> (set: HostSet)
        ensures
            set@ == Set::<IpAddress>::empty(),
    {
        let set = HostSet { items: Vec::new() };
        assert(set.items@.to_set() =~= Set::<IpAddress>::empty());
        set
    }

    /// Whether `addr` is in the set.
    pub fn contains(&self, addr: IpAddress) -> (found: bool)
        ensures
            found == self@.contains(addr),
    {
        let mut i: usize = 0;
        while i < self.items.len()
            invariant
                i <= self.items@.len(),
                forall|k: int| 0 <= k < i ==> self.items@[k] != addr,
            decreases self.items@.len() - i,
        {
            if self.items[i] == addr {
                return true;
            }
            i = i + 1;
        }
        false
    }

    /// Adds `addr` to the set. Returns whether it was new to the set.
    pub fn insert(&mut self, addr: IpAddress) -> (added: bool)
        ensures
            final(self)@ == old(self)@.insert(addr),
            added == !old(self)@.contains(addr),
    {
        proof {
            use_type_invariant(&*self);
        }
        if self.contains(addr) {
            assert(self@.insert(addr) =~= self@);
            false
        } else {
            let ghost before = self.items@;
            let mut items: Vec<IpAddress> = Vec::new();
            core::mem::swap(&mut self.items, &mut items);
            items.push(addr);
            self.items = items;
            assert(self.items@ == before.push(addr));
            proof {
                before.lemma_push_to_set_commute(addr);
            }
            true
        }
    }

    /// The number of addresses in the set.
    pub fn len(&self) -> (n: usize)
        ensures
            self@.finite(),
            n == self@.len(),
    {
        proof {
            use_type_invariant(self);
            self.items@.unique_seq_to_set();
        }
        self.items.len()
    }

    /// Whether the set holds no address.
    pub fn is_empty(&self) -> (empty: bool)
        ensures
            empty == (self@ == Set::<IpAddress>::empty()),
    {
        let empty = self.items.len() == 0;
        proof {
            if empty {
                assert(self.items@.to_set() =~= Set::<IpAddress>::empty());
            } else {
                assert(self.items@.to_set().contains(self.items@[0]));
            }
        }
        empty
    }

    /// The set of the addresses that occur in `addrs`.
    pub fn from_vec(addrs: &Vec<IpAddress>) -> (set: HostSet)
        ensures
            set@ == addrs@.to_set(),
    {
        let mut set = HostSet::new();
        let mut i: usize = 0;
        while i < addrs.len()
            invariant
                i <= addrs@.len(),
                set@ == addrs@.take(i as int).to_set(),
            decreases addrs@.len() - i,
        {
            set.insert(addrs[i]);
            proof {
                assert(addrs@.take(i + 1) =~= addrs@.take(i as int).push(addrs@[i as int]));
                addrs@.take(i as int).lemma_push_to_set_commute(addrs@[i as int]);
            }
            i = i + 1;
        }
        assert(addrs@.take(i as int) =~= addrs@);
        set
    }

    /// The addresses of the set, each once.
    pub fn to_vec(&self) -> (addrs: Vec<IpAddress>)
        ensures
            addrs@.to_set() == self@,
            addrs@.no_duplicates(),
    {
        proof {
            use_type_invariant(self);
        }
        let mut addrs: Vec<IpAddress> = Vec::new();
        let mut i: usize = 0;
        while i < self.items.len()
            invariant
                i <= self.items@.len(),
                addrs@ == self.items@.take(i as int),
            decreases self.items@.len() - i,
        {
            addrs.push(self.items[i]);
            assert(self.items@.take(i + 1) =~= self.items@.take(i as int).push(self.items@[i as int]));
            i = i + 1;
        }
        assert(self.items@.take(i as int) =~= self.items@);
        addrs
    }

    /// Whether `self` and `other` hold the same addresses.
    pub fn same_hosts(&self, other: &HostSet) -> (same: bool)
        ensures
            same == (self@ == other@),
    {
        let same = self.is_subset_of(other) && other.is_subset_of(self);
        assert(same == (self@ =~= other@));
        same
    }

    /// Whether every address of `self` is in `other`.
    pub fn is_subset_of(&self, other: &HostSet) -> (within: bool)
        ensures
            within == self@.subset_of(other@),
    {
        let mut i: usize = 0;
        while i < self.items.len()
            invariant
                i <= self.items@.len(),
                forall|k: int| 0 <= k < i ==> other@.contains(#[trigger] self.items@[k]),
            decreases self.items@.len() - i,
        {
            if !other.contains(self.items[i]) {
                assert(self@.contains(self.items@[i as int]));
                return false;
            }
            i = i + 1;
        }
        true
    }
}

impl Clone for HostSet {
    fn clone(&self) -> (copy: HostSet)
        ensures
            copy@ == self@,
    {
        proof {
            use_type_invariant(self);
        }
        let items = self.to_vec();
        HostSet { items }
    }
}

} // verus!
