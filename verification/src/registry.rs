//! The application-wide window registry: the id-to-window map and the
//! ordered stack of active surfaces.
//!
//! The two are kept in step as one unit: creating a window files it in
//! both, closing removes it from both, so a callback racing a close can
//! never see a half-closed window. Closing is idempotent — a second close
//! of the same id removes nothing and pops nothing.
//!
//! The map's values are slots: numbers under which the embedder keeps the
//! native window handles.

use std::collections::VecDeque;

use vstd::prelude::*;

use crate::error::Error;
use crate::ordmap::{ordmap_as_map, ordmap_contains_key, ordmap_get, ordmap_insert, ordmap_len,
    ordmap_new, ordmap_remove};

verus! {

broadcast use vstd::std_specs::vecdeque::axiom_spec_len;

/// The live windows of one application.
pub struct WindowRegistry {
    handles: im::OrdMap<u64, u64>,
    active: VecDeque<u64>,
}

impl WindowRegistry {
    /// The id-to-slot map of live windows.
    pub closed spec fn spec_handles(self) -> Map<u64, u64> {
        ordmap_as_map(self.handles)
    }

    /// The active-surface stack, most recent first.
    pub closed spec fn spec_active(self) -> Seq<u64> {
        self.active@
    }

    /// Map and stack hold exactly the same ids, each id once.
    pub closed spec fn wf(self) -> bool {
        &&& self.active@.no_duplicates()
        &&& forall|i: int|
            0 <= i < self.active@.len() ==> ordmap_as_map(self.handles).dom().contains(
                #[trigger] self.active@[i],
            )
        &&& forall|id: u64|
            #[trigger] ordmap_as_map(self.handles).dom().contains(id)
                ==> self.active@.contains(id)
    }

    pub fn new() -> (r: WindowRegistry)
        ensures
            r.wf(),
            r.spec_handles() == Map::<u64, u64>::empty(),
            r.spec_active() == Seq::<u64>::empty(),
    {
        WindowRegistry { handles: ordmap_new(), active: VecDeque::new() }
    }

    /// How many windows are live.
    pub fn len(&self) -> (n: usize)
        ensures
            n == self.spec_handles().dom().len(),
    {
        ordmap_len(&self.handles)
    }

    /// How deep the active-surface stack is.
    pub fn stack_len(&self) -> (n: usize)
        ensures
            n == self.spec_active().len(),
    {
        self.active.len()
    }

    /// Whether `id` names a live window.
    pub fn contains(&self, id: u64) -> (b: bool)
        ensures
            b == self.spec_handles().dom().contains(id),
    {
        ordmap_contains_key(&self.handles, id)
    }

    /// The slot of the window `id`, if it is live. An event for an id no
    /// longer here belongs to a closed window and is silently dropped.
    pub fn lookup(&self, id: u64) -> (r: Option<u64>)
        ensures
            r == (if self.spec_handles().dom().contains(id) {
                Some(self.spec_handles()[id])
            } else {
                None::<u64>
            }),
    {
        ordmap_get(&self.handles, id)
    }

    /// File a new window under its surface id and push it onto the active
    /// stack, both or neither: a duplicate id — the surface id of a live
    /// window — is refused and changes nothing.
    pub fn register(&mut self, id: u64, slot: u64) -> (r: Result<(), Error>)
        requires
            old(self).wf(),
            old(self).spec_active().len() < usize::MAX,
        ensures
            final(self).wf(),
            old(self).spec_handles().dom().contains(id) ==> {
                &&& r is Err
                &&& final(self).spec_handles() == old(self).spec_handles()
                &&& final(self).spec_active() == old(self).spec_active()
            },
            !old(self).spec_handles().dom().contains(id) ==> {
                &&& r is Ok
                &&& final(self).spec_handles() == old(self).spec_handles().insert(id, slot)
                &&& final(self).spec_active() == seq![id] + old(self).spec_active()
            },
    {
        if ordmap_contains_key(&self.handles, id) {
            return Err(Error::string("surface ids of live windows must be unique"));
        }

        ordmap_insert(&mut self.handles, id, slot);
        self.active.push_front(id);

        proof {
            let new_active = self.active@;
            let old_active = old(self).spec_active();
            let new_dom = ordmap_as_map(self.handles).dom();
            assert forall|i: int| 0 <= i < new_active.len() implies new_dom.contains(
                #[trigger] new_active[i],
            ) by {
                if i > 0 {
                    assert(new_active[i] == old_active[i - 1]);
                }
            }
            assert forall|w: u64| #[trigger] new_dom.contains(w) implies new_active.contains(
                w,
            ) by {
                if w == id {
                    assert(new_active[0] == w);
                } else {
                    let j = choose|j: int|
                        0 <= j < old_active.len() && old_active[j] == w;
                    assert(new_active[j + 1] == w);
                }
            }
            assert forall|i: int, j: int|
                0 <= i < new_active.len() && 0 <= j < new_active.len() && i != j
                implies new_active[i] != new_active[j] by {
                if i == 0 && j > 0 {
                    assert(new_active[j] == old_active[j - 1]);
                } else if j == 0 && i > 0 {
                    assert(new_active[i] == old_active[i - 1]);
                } else if i > 0 && j > 0 {
                    assert(new_active[i] == old_active[i - 1]);
                    assert(new_active[j] == old_active[j - 1]);
                }
            }
        }

        Ok(())
    }

    /// Close the window `id`: remove it from the map and pop it from the
    /// active stack, as one step. A second close of the same id finds no
    /// window, removes nothing and pops nothing — closing twice is
    /// closing once.
    #[verifier::loop_isolation(false)]
    pub fn close(&mut self, id: u64) -> (closed: bool)
        requires
            old(self).wf(),
        ensures
            final(self).wf(),
            closed == old(self).spec_handles().dom().contains(id),
            final(self).spec_handles() == old(self).spec_handles().remove(id),
            !closed ==> final(self).spec_active() == old(self).spec_active(),
            closed ==> exists|i: int|
                {
                    &&& 0 <= i < old(self).spec_active().len()
                    &&& old(self).spec_active()[i] == id
                    &&& final(self).spec_active() == old(self).spec_active().remove(i)
                },
            !final(self).spec_active().contains(id),
    {
        let removed = ordmap_remove(&mut self.handles, id);

        if removed.is_none() {
            proof {
                assert(ordmap_as_map(self.handles) =~= old(self).spec_handles());
                assert forall|i: int|
                    0 <= i < self.active@.len() implies self.active@[i] != id by {}
                assert(!self.active@.contains(id));
            }
            return false;
        }

        let ghost old_active = self.active@;
        let mut i: usize = 0;
        let len = self.active.len();
        while i < len
            invariant
                len == self.active@.len(),
                0 <= i <= len,
                forall|k: int| 0 <= k < i ==> self.active@[k] != id,
                self.active@ == old_active,
                old_active.contains(id),
                ordmap_as_map(self.handles) == ordmap_as_map(old(self).handles).remove(id),
            decreases len - i,
        {
            if *&self.active[i] == id {
                let ghost idx = i as int;
                self.active.remove(i);
                proof {
                    assert(old_active == old(self).active@);
                    assert(old_active[idx] == id);
                    assert(self.active@ == old_active.remove(idx));
                    old_active.remove_ensures(idx);
                    assert(old(self).active@.no_duplicates());
                    assert(ordmap_as_map(self.handles) == ordmap_as_map(
                        old(self).handles,
                    ).remove(id));
                    assert(ordmap_as_map(self.handles).dom() =~= ordmap_as_map(
                        old(self).handles,
                    ).dom().remove(id));
                    // Each surviving stack entry is an old entry other
                    // than the one at idx, hence not id and still in the
                    // shrunken map's domain.
                    assert forall|k: int| 0 <= k < self.active@.len() implies {
                        &&& ordmap_as_map(self.handles).dom().contains(#[trigger] self.active@[k])
                        &&& self.active@[k] != id
                    } by {
                        assert(self.active@[k] == old_active.remove(idx)[k]);
                        if k < idx {
                            assert(old_active.remove(idx)[k] == old_active[k]);
                            assert(old(self).active@[k] == old_active[k]);
                            assert(old(self).active@[k] != old(self).active@[idx]);
                        } else {
                            assert(old_active.remove(idx)[k] == old_active[k + 1]);
                            assert(old(self).active@[k + 1] == old_active[k + 1]);
                            assert(old(self).active@[k + 1] != old(self).active@[idx]);
                        }
                    }
                    // Every id in the shrunken map is still on the stack.
                    assert forall|w: u64|
                        #[trigger] ordmap_as_map(self.handles).dom().contains(w)
                        implies self.active@.contains(w) by {
                        assert(ordmap_as_map(old(self).handles).dom().contains(w));
                        assert(w != id);
                        assert(old(self).active@.contains(w));
                        let j = choose|j: int|
                            0 <= j < old(self).active@.len() && old(self).active@[j] == w;
                        assert(old_active[j] == w);
                        assert(j != idx);
                        if j < idx {
                            assert(old_active.remove(idx)[j] == old_active[j]);
                            assert(self.active@[j] == w);
                        } else {
                            assert(old_active.remove(idx)[j - 1] == old_active[j]);
                            assert(self.active@[j - 1] == w);
                        }
                    }
                    // No duplicates survive removal.
                    assert forall|a: int, b: int|
                        0 <= a < self.active@.len() && 0 <= b < self.active@.len() && a != b
                        implies self.active@[a] != self.active@[b] by {
                        assert(self.active@[a] == old_active.remove(idx)[a]);
                        assert(self.active@[b] == old_active.remove(idx)[b]);
                        if a < idx {
                            assert(old_active.remove(idx)[a] == old_active[a]);
                            assert(old(self).active@[a] == old_active[a]);
                        } else {
                            assert(old_active.remove(idx)[a] == old_active[a + 1]);
                            assert(old(self).active@[a + 1] == old_active[a + 1]);
                        }
                        if b < idx {
                            assert(old_active.remove(idx)[b] == old_active[b]);
                            assert(old(self).active@[b] == old_active[b]);
                        } else {
                            assert(old_active.remove(idx)[b] == old_active[b + 1]);
                            assert(old(self).active@[b + 1] == old_active[b + 1]);
                        }
                    }
                    assert(!self.active@.contains(id));
                    assert(0 <= idx < old(self).spec_active().len() && old(self).spec_active()[idx]
                        == id && self.active@ == old(self).spec_active().remove(idx));
                }
                return true;
            }
            i = i + 1;
        }

        proof {
            assert(old_active.contains(id));
            let j = choose|j: int| 0 <= j < old_active.len() && old_active[j] == id;
            assert(old_active[j] != id);
        }
        false
    }
}

/// Closing is idempotent at the map: the first close takes the id out of
/// the live-window map, and removing it again changes nothing — there is
/// no double-remove, and with the id gone the active stack is not popped
/// a second time either.
pub proof fn lemma_close_idempotent(handles: Map<u64, u64>, id: u64)
    ensures
        !handles.remove(id).dom().contains(id),
        handles.remove(id).remove(id) == handles.remove(id),
{
    assert(handles.remove(id).remove(id) =~= handles.remove(id));
}

} // verus!
