use crate::surface::DimSurface;
use vstd::prelude::*;
use vstd::seq_lib::seq_to_set_is_finite;

verus! {

/// The overlays, keyed by the identity of the output each one covers.
///
/// Held as a vector of pairs: configure and frame events name an overlay by
/// its surface, not its output, so lookups walk the entries anyway.
pub struct SurfaceMap {
    entries: Vec<(u32, DimSurface)>,
}

pub open spec fn has_key(e: Seq<(u32, DimSurface)>, key: u32) -> bool {
    exists|i: int| 0 <= i < e.len() && e[i].0 == key
}

pub open spec fn entries_map(e: Seq<(u32, DimSurface)>) -> Map<u32, DimSurface> {
    Map::new(
        |k: u32| has_key(e, k),
        |k: u32| e[choose|i: int| 0 <= i < e.len() && e[i].0 == k].1,
    )
}

pub open spec fn entries_unique(e: Seq<(u32, DimSurface)>) -> bool {
    forall|i: int, j: int|
        0 <= i < e.len() && 0 <= j < e.len() && i != j ==> {
            &&& e[i].0 != e[j].0
            &&& e[i].1.surface_id != e[j].1.surface_id
        }
}

/// No two outputs share a shell surface.
pub open spec fn surface_ids_unique(m: Map<u32, DimSurface>) -> bool {
    forall|k1: u32, k2: u32|
        m.contains_key(k1) && m.contains_key(k2) && m[k1].surface_id == m[k2].surface_id ==> k1
            == k2
}

/// Whether a surface other than the one of `key` is drawn on `surface_id`.
pub open spec fn surface_id_taken(m: Map<u32, DimSurface>, key: u32, surface_id: u32) -> bool {
    exists|k: u32| m.contains_key(k) && k != key && m[k].surface_id == surface_id
}

proof fn lemma_entry(e: Seq<(u32, DimSurface)>, i: int)
    requires
        entries_unique(e),
        0 <= i < e.len(),
    ensures
        entries_map(e).contains_key(e[i].0),
        entries_map(e)[e[i].0] == e[i].1,
{
    let k = e[i].0;
    assert(has_key(e, k));
    let j = choose|j: int| 0 <= j < e.len() && e[j].0 == k;
    assert(j == i);
}

proof fn lemma_entries_finite(e: Seq<(u32, DimSurface)>)
    ensures
        entries_map(e).dom().finite(),
{
    let keys = e.map_values(|p: (u32, DimSurface)| p.0);
    assert forall|k: u32| entries_map(e).dom().contains(k) <==> keys.to_set().contains(k) by {
        if has_key(e, k) {
            let i = choose|i: int| 0 <= i < e.len() && e[i].0 == k;
            assert(keys[i] == k);
        }
        if keys.to_set().contains(k) {
            let i = choose|i: int| 0 <= i < keys.len() && keys[i] == k;
            assert(e[i].0 == k);
        }
    }
    assert(entries_map(e).dom() =~= keys.to_set());
    seq_to_set_is_finite(keys);
}

proof fn lemma_view_unique(e: Seq<(u32, DimSurface)>)
    requires
        entries_unique(e),
    ensures
        surface_ids_unique(entries_map(e)),
{
    let m = entries_map(e);
    assert forall|k1: u32, k2: u32|
        m.contains_key(k1) && m.contains_key(k2) && m[k1].surface_id == m[k2].surface_id implies k1
            == k2 by {
        let i = choose|i: int| 0 <= i < e.len() && e[i].0 == k1;
        let j = choose|j: int| 0 <= j < e.len() && e[j].0 == k2;
        lemma_entry(e, i);
        lemma_entry(e, j);
    }
}

impl View for SurfaceMap {
    type V = Map<u32, DimSurface>;

    closed spec fn view(&self) -> Map<u32, DimSurface> {
        entries_map(self.entries@)
    }
}

impl SurfaceMap {
    pub closed spec fn wf(&self) -> bool {
        entries_unique(self.entries@)
    }

    pub fn new() -> (r: SurfaceMap)
        ensures
            r.wf(),
            r@ == Map::<u32, DimSurface>::empty(),
    {
        let r = SurfaceMap { entries: Vec::new() };
        assert(r@ =~= Map::<u32, DimSurface>::empty());
        r
    }

    pub proof fn lemma_wf(&self)
        requires
            self.wf(),
        ensures
            surface_ids_unique(self@),
            self@.dom().finite(),
    {
        lemma_view_unique(self.entries@);
        lemma_entries_finite(self.entries@);
    }

    fn index_of(&self, key: u32) -> (r: Option<usize>)
        requires
            self.wf(),
        ensures
            r matches Some(i) ==> i < self.entries@.len() && self.entries@[i as int].0 == key,
            r is None ==> !self@.contains_key(key),
    {
        let mut i: usize = 0;
        while i < self.entries.len()
            invariant
                0 <= i <= self.entries@.len(),
                forall|j: int| 0 <= j < i ==> self.entries@[j].0 != key,
            decreases self.entries@.len() - i,
        {
            if self.entries[i].0 == key {
                return Some(i);
            }
            i = i + 1;
        }
        None
    }

    pub fn get(&self, key: u32) -> (r: Option<DimSurface>)
        requires
            self.wf(),
        ensures
            r == (if self@.contains_key(key) {
                Some(self@[key])
            } else {
                None
            }),
    {
        match self.index_of(key) {
            Some(i) => {
                proof {
                    lemma_entry(self.entries@, i as int);
                }
                Some(self.entries[i].1)
            },
            None => None,
        }
    }
    /// The output whose overlay is drawn on `surface_id`, if any.
    pub fn find_surface(&self, surface_id: u32) -> (r: Option<u32>)
        requires
            self.wf(),
        ensures
            r matches Some(k) ==> self@.contains_key(k) && self@[k].surface_id == surface_id,
            r is None ==> forall|k: u32| #[trigger] self@.contains_key(k) ==> self@[k].surface_id
                != surface_id,
    {
        let mut i: usize = 0;
        while i < self.entries.len()
            invariant
                self.wf(),
                0 <= i <= self.entries@.len(),
                forall|j: int| 0 <= j < i ==> self.entries@[j].1.surface_id != surface_id,
            decreases self.entries@.len() - i,
        {
            if self.entries[i].1.surface_id == surface_id {
                proof {
                    lemma_entry(self.entries@, i as int);
                }
                return Some(self.entries[i].0);
            }
            i = i + 1;
        }
        proof {
            let e = self.entries@;
            assert forall|k: u32| self@.contains_key(k) implies self@[k].surface_id
                != surface_id by {
                let j = choose|j: int| 0 <= j < e.len() && e[j].0 == k;
                lemma_entry(e, j);
            }
        }
        None
    }

    /// Puts `s` in place for `key`, replacing the overlay held there.
    pub fn insert(&mut self, key: u32, s: DimSurface)
        requires
            old(self).wf(),
            !surface_id_taken(old(self)@, key, s.surface_id),
        ensures
            final(self).wf(),
            final(self)@ == old(self)@.insert(key, s),
    {
        let ghost e0 = self.entries@;
        let ghost m0 = self@;
        proof {
            assert forall|j: int| 0 <= j < e0.len() && e0[j].0 != key implies e0[j].1.surface_id
                != s.surface_id by {
                lemma_entry(e0, j);
            }
        }
        let ghost mut at: int = 0;
        match self.index_of(key) {
            Some(i) => {
                self.entries.set(i, (key, s));
                proof {
                    at = i as int;
                }
            },
            None => {
                self.entries.push((key, s));
                proof {
                    at = e0.len() as int;
                }
            },
        }
        proof {
            let e = self.entries@;
            assert(entries_unique(e));
            assert forall|k: u32| #[trigger] m0.insert(key, s).contains_key(k) implies has_key(
                e,
                k,
            ) by {
                if k == key {
                    assert(e[at].0 == key);
                } else {
                    let j = choose|j: int| 0 <= j < e0.len() && e0[j].0 == k;
                    assert(e[j].0 == k);
                }
            }
            assert forall|k: u32| has_key(e, k) implies #[trigger] m0.insert(key, s).contains_key(
                k,
            ) && self@[k] == m0.insert(key, s)[k] by {
                let j = choose|j: int| 0 <= j < e.len() && e[j].0 == k;
                lemma_entry(e, j);
                if k != key {
                    assert(e0[j].0 == k);
                    lemma_entry(e0, j);
                }
            }
            assert(self@ =~= m0.insert(key, s));
        }
    }

    /// Drops the overlay of `key`; says whether there was one.
    pub fn remove(&mut self, key: u32) -> (r: bool)
        requires
            old(self).wf(),
        ensures
            final(self).wf(),
            final(self)@ == old(self)@.remove(key),
            r == old(self)@.contains_key(key),
    {
        let ghost e0 = self.entries@;
        let ghost m0 = self@;
        match self.index_of(key) {
            Some(i) => {
                self.entries.remove(i);
                proof {
                    let e = self.entries@;
                    assert(e =~= e0.remove(i as int));
                    assert(entries_unique(e)) by {
                        assert forall|a: int, b: int|
                            0 <= a < e.len() && 0 <= b < e.len() && a != b implies {
                            &&& e[a].0 != e[b].0
                            &&& e[a].1.surface_id != e[b].1.surface_id
                        } by {
                            let a0 = if a < i {
                                a
                            } else {
                                a + 1
                            };
                            let b0 = if b < i {
                                b
                            } else {
                                b + 1
                            };
                            assert(e[a] == e0[a0] && e[b] == e0[b0]);
                        }
                    }
                    assert forall|k: u32| #[trigger] m0.remove(key).contains_key(k) implies has_key(
                        e,
                        k,
                    ) by {
                        let j = choose|j: int| 0 <= j < e0.len() && e0[j].0 == k;
                        assert(j != i);
                        if j < i {
                            assert(e[j].0 == k);
                        } else {
                            assert(e[j - 1].0 == k);
                        }
                    }
                    assert forall|k: u32| has_key(e, k) implies #[trigger] m0.remove(
                        key,
                    ).contains_key(k) && self@[k] == m0.remove(key)[k] by {
                        let j = choose|j: int| 0 <= j < e.len() && e[j].0 == k;
                        lemma_entry(e, j);
                        let j0 = if j < i {
                            j
                        } else {
                            j + 1
                        };
                        assert(e0[j0] == e[j]);
                        lemma_entry(e0, j0);
                        lemma_entry(e0, i as int);
                    }
                    assert(self@ =~= m0.remove(key));
                }
                true
            },
            None => {
                assert(self@ =~= m0.remove(key));
                false
            },
        }
    }
}

/// An output event touches the overlay of that output only: adding or
/// replacing it leaves exactly that key with the new overlay, removing it
/// takes exactly that key away, and every other output keeps its overlay.
pub proof fn lemma_output_change_is_local(
    m: Map<u32, DimSurface>,
    output: u32,
    s: DimSurface,
    other: u32,
)
    requires
        other != output,
    ensures
        m.insert(output, s).dom() == m.dom().insert(output),
        m.insert(output, s)[output] == s,
        m.remove(output).dom() == m.dom().remove(output),
        m.insert(output, s).contains_key(other) == m.contains_key(other),
        m.remove(output).contains_key(other) == m.contains_key(other),
        m.contains_key(other) ==> m.insert(output, s)[other] == m[other] && m.remove(output)[other]
            == m[other],
{
    assert(m.insert(output, s).dom() =~= m.dom().insert(output));
    assert(m.remove(output).dom() =~= m.dom().remove(output));
}

} // verus!
