//! The filters attached to a source, slot by slot.
use vstd::prelude::*;
use std::collections::HashMap;
use crate::handle::Handle;

verus! {

broadcast use vstd::std_specs::hash::group_hash_axioms;

/// The slot map after attaching the filter at `filter` to slot `id`, or
/// detaching slot `id` where `filter` is `None`: the last write wins.
pub open spec fn attach(m: Map<u32, usize>, id: u32, filter: Option<usize>) -> Map<u32, usize> {
    match filter {
        Some(a) => m.insert(id, a),
        None => m.remove(id),
    }
}

/// The address of a filter handle, if any.
pub open spec fn filter_addr(filter: Option<&Handle>) -> Option<usize> {
    match filter {
        Some(h) => Some(h@),
        None => None,
    }
}

/// The filter slots of one source: slot index to the address of the filter
/// object attached there. Slot indices are chosen by the caller.
#[derive(Debug)]
pub struct FilterSlots {
    slots: HashMap<u32, usize>,
}

impl View for FilterSlots {
    type V = Map<u32, usize>;

    closed spec fn view(&self) -> Map<u32, usize> {
        self.slots@
    }
}

impl FilterSlots {
    /// Every attached filter is a live object.
    pub open spec fn wf(&self) -> bool {
        forall|id: u32| #[trigger] self@.contains_key(id) ==> self@[id] != 0
    }

    /// No filter attached.
    pub fn new() -> (r: FilterSlots)
        ensures
            r.wf(),
            r@ == Map::<u32, usize>::empty(),
    {
        FilterSlots { slots: HashMap::new() }
    }

    /// Attaches `filter` at slot `filter_id`, replacing what was there, or
    /// detaches the slot on `None`. Other slots keep their filters. Returns
    /// the address the engine is handed for the slot: the filter's, or null
    /// to detach.
    pub fn set_filter(&mut self, filter_id: u32, filter: Option<&Handle>) -> (r: usize)
        requires
            old(self).wf(),
        ensures
            final(self).wf(),
            final(self)@ == attach(old(self)@, filter_id, filter_addr(filter)),
            r == (match filter {
                Some(h) => h@,
                None => 0,
            }),
            r == 0 <==> filter is None,
    {
        match filter {
            Some(h) => {
                let a = h.addr();
                self.slots.insert(filter_id, a);
                assert forall|k: u32| #[trigger] self@.contains_key(k) implies self@[k] != 0 by {
                    if k != filter_id {
                        assert(old(self)@.contains_key(k));
                    }
                }
                a
            },
            None => {
                self.slots.remove(&filter_id);
                assert forall|k: u32| #[trigger] self@.contains_key(k) implies self@[k] != 0 by {
                    assert(old(self)@.contains_key(k));
                }
                0
            },
        }
    }

    /// The address of the filter at slot `filter_id`, if one is attached.
    pub fn filter_at(&self, filter_id: u32) -> (r: Option<usize>)
        ensures
            r == (if self@.contains_key(filter_id) {
                Some(self@[filter_id])
            } else {
                None
            }),
    {
        match self.slots.get(&filter_id) {
            Some(a) => Some(*a),
            None => None,
        }
    }
}

/// Attaching two filters at one slot and then detaching it leaves the slot
/// empty; the second filter replaces the first; other slots are unchanged
/// throughout.
pub proof fn lemma_slot_last_write_wins(m: Map<u32, usize>, id: u32, a: usize, b: usize)
    ensures
        attach(attach(m, id, Some(a)), id, Some(b))[id] == b,
        attach(attach(m, id, Some(a)), id, Some(b)).remove(id) == m.remove(id),
        !attach(attach(attach(m, id, Some(a)), id, Some(b)), id, None).contains_key(id),
        attach(attach(attach(m, id, Some(a)), id, Some(b)), id, None) == m.remove(id),
{
    assert(attach(attach(m, id, Some(a)), id, Some(b)).remove(id) =~= m.remove(id));
    assert(attach(attach(attach(m, id, Some(a)), id, Some(b)), id, None) =~= m.remove(id));
}

} // verus!
