//! Hosts that refuse the proxy's own request headers.

use vstd::prelude::*;

verus! {

/// An append-only set of host names. Requests to a member go out with the
/// caller's own headers at once.
pub struct QuarantineSet {
    hosts: Vec<String>,
}

impl QuarantineSet {
    /// Whether some entry spells this host.
    pub closed spec fn holds(&self, host: Seq<char>) -> bool {
        exists|i: int| 0 <= i < self.hosts@.len() && (#[trigger] self.hosts@[i])@ == host
    }

    /// Each host is kept once.
    #[verifier::type_invariant]
    spec fn no_host_twice(&self) -> bool {
        forall|i: int, j: int|
            0 <= i < j < self.hosts@.len() ==> (#[trigger] self.hosts@[i])@ != (
            #[trigger] self.hosts@[j])@
    }

    /// The number of entries kept.
    pub closed spec fn spec_len(&self) -> nat {
        self.hosts@.len()
    }

    pub fn new() -> (q: QuarantineSet)
        ensures
            q@ == Set::<Seq<char>>::empty(),
            q.spec_len() == 0,
    {
        let q = QuarantineSet { hosts: Vec::new() };
        assert(q@ =~= Set::<Seq<char>>::empty());
        q
    }

    pub fn len(&self) -> (n: usize)
        ensures
            n == self.spec_len(),
    {
        self.hosts.len()
    }

    pub fn contains(&self, host: &String) -> (r: bool)
        ensures
            r == self@.contains(host@),
    {
        let mut i: usize = 0;
        while i < self.hosts.len()
            invariant
                i <= self.hosts@.len(),
                forall|k: int| 0 <= k < i ==> (#[trigger] self.hosts@[k])@ != host@,
            decreases self.hosts@.len() - i,
        {
            if self.hosts[i] == *host {
                return true;
            }
            i = i + 1;
        }
        false
    }

    /// Adds a host. Adding a member changes nothing.
    pub fn insert(&mut self, host: &String)
        ensures
            final(self)@ == old(self)@.insert(host@),
            final(self).spec_len() == old(self).spec_len() + (if old(self)@.contains(host@) {
                0nat
            } else {
                1nat
            }),
    {
        proof {
            use_type_invariant(&*self);
        }
        if !self.contains(host) {
            let ghost before = self.hosts@;
            let mut hosts: Vec<String> = Vec::new();
            std::mem::swap(&mut hosts, &mut self.hosts);
            hosts.push(host.clone());
            self.hosts = hosts;
            assert forall|h: Seq<char>| self.holds(h) <==> (old(self).holds(h) || h == host@) by {
                if old(self).holds(h) {
                    let i = choose|i: int| 0 <= i < before.len() && (#[trigger] before[i])@ == h;
                    assert(self.hosts@[i] == before[i]);
                }
                if h == host@ {
                    assert(self.hosts@[before.len() as int]@ == h);
                }
                if self.holds(h) {
                    let i = choose|i: int|
                        0 <= i < self.hosts@.len() && (#[trigger] self.hosts@[i])@ == h;
                    if i < before.len() {
                        assert(before[i] == self.hosts@[i]);
                    }
                }
            }
            assert(self@ =~= old(self)@.insert(host@));
        } else {
            assert(self@ =~= old(self)@.insert(host@));
        }
    }
}

impl View for QuarantineSet {
    type V = Set<Seq<char>>;

    closed spec fn view(&self) -> Set<Seq<char>> {
        Set::new(|h: Seq<char>| self.holds(h))
    }
}

} // verus!
