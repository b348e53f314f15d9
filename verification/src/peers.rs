//! The set of network identities the gossip capability is told to treat as
//! directly reachable. The event loop adds an identity when discovery
//! announces it and removes it when discovery expires it; the set is the
//! verified model of that bookkeeping, viewed as a set of identity byte
//! sequences.

use vstd::prelude::*;

use crate::identity::Identity;
use crate::identity::bytes_eq;

verus! {

/// The identities currently treated as explicit gossip peers.
#[derive(Debug)]
pub struct ExplicitPeerSet {
    ids: Vec<Identity>,
}

impl View for ExplicitPeerSet {
    type V = Set<Seq<u8>>;

    closed spec fn view(&self) -> Set<Seq<u8>> {
        Set::new(|s: Seq<u8>| exists|i: int| 0 <= i < self.ids@.len() && self.ids@[i]@ == s)
    }
}

impl ExplicitPeerSet {
    /// An empty peer set.
    pub fn new() -> (r: ExplicitPeerSet)
        ensures
            r@ == Set::<Seq<u8>>::empty(),
    {
        let r = ExplicitPeerSet { ids: Vec::new() };
        assert(r@ =~= Set::<Seq<u8>>::empty());
        r
    }

    /// Whether `id` is in the set.
    pub fn contains(&self, id: &Identity) -> (r: bool)
        ensures
            r == self@.contains(id@),
    {
        let mut i: usize = 0;
        while i < self.ids.len()
            invariant
                i <= self.ids@.len(),
                forall|j: int| 0 <= j < i ==> self.ids@[j]@ != id@,
            decreases self.ids@.len() - i,
        {
            if bytes_eq(&self.ids[i].bytes, &id.bytes) {
                return true;
            }
            i = i + 1;
        }
        false
    }

    /// Add `id` to the set; adding an identity already present changes nothing.
    pub fn insert(&mut self, id: Identity)
        ensures
            final(self)@ == old(self)@.insert(id@),
    {
        let ghost before = self@;
        if self.contains(&id) {
            assert(self@ =~= before.insert(id@));
        } else {
            let ghost ids_before = self.ids@;
            self.ids.push(id);
            assert forall|s: Seq<u8>| self@.contains(s) <==> before.insert(id@).contains(s) by {
                if s == id@ {
                    assert(self.ids@[ids_before.len() as int]@ == s);
                } else if before.contains(s) {
                    let i = choose|i: int| 0 <= i < ids_before.len() && ids_before[i]@ == s;
                    assert(self.ids@[i]@ == s);
                }
            }
            assert(self@ =~= before.insert(id@));
        }
    }

    /// Remove every entry naming `id` from the set.
    pub fn remove(&mut self, id: &Identity)
        ensures
            final(self)@ == old(self)@.remove(id@),
    {
        let ghost before = self@;
        let ghost ids_before = self.ids@;
        let mut kept: Vec<Identity> = Vec::new();
        let mut i: usize = 0;
        while i < self.ids.len()
            invariant
                i <= self.ids@.len(),
                self.ids@ == ids_before,
                forall|k: int| 0 <= k < kept@.len() ==> #[trigger] kept@[k]@ != id@,
                forall|k: int|
                    0 <= k < kept@.len() ==> exists|j: int|
                        0 <= j < i && ids_before[j]@ == #[trigger] kept@[k]@,
                forall|j: int|
                    0 <= j < i && ids_before[j]@ != id@ ==> exists|k: int|
                        0 <= k < kept@.len() && kept@[k]@ == #[trigger] ids_before[j]@,
            decreases self.ids@.len() - i,
        {
            let ghost kept_before = kept@;
            if !bytes_eq(&self.ids[i].bytes, &id.bytes) {
                let entry = self.ids[i].duplicate();
                kept.push(entry);
                assert forall|j: int| 0 <= j < i + 1 && ids_before[j]@ != id@ implies exists|k: int|
                    0 <= k < kept@.len() && kept@[k]@ == #[trigger] ids_before[j]@ by {
                    if j < i {
                        let k = choose|k: int|
                            0 <= k < kept_before.len() && kept_before[k]@ == ids_before[j]@;
                        assert(kept@[k]@ == ids_before[j]@);
                    } else {
                        assert(kept@[kept@.len() - 1]@ == ids_before[j]@);
                    }
                }
            }
            i = i + 1;
        }
        self.ids = kept;
        assert forall|s: Seq<u8>| self@.contains(s) <==> before.remove(id@).contains(s) by {
            if self@.contains(s) {
                let k = choose|k: int| 0 <= k < self.ids@.len() && self.ids@[k]@ == s;
                assert(self.ids@[k]@ != id@);
            } else if before.contains(s) && s != id@ {
                let j = choose|j: int| 0 <= j < ids_before.len() && ids_before[j]@ == s;
            }
        }
        assert(self@ =~= before.remove(id@));
    }
}

} // verus!
