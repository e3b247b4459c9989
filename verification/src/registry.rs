//! The channel table: which channel ids are live, for which payload type,
//! and which workers have yet to collect their share.
//!
//! An entry is installed with one slot per worker, each holding that
//! worker's share. A worker takes its slot exactly once. When the last slot
//! of an entry has been taken the entry leaves the table, and the id may be
//! used again, for any payload type.

use crate::error::CommError;
use crate::tag::TypeTag;
use std::collections::HashMap;
use vstd::pervasive::unreached;
use vstd::prelude::*;
use vstd::std_specs::hash::*;

verus! {

broadcast use group_hash_axioms;

/// What the table holds for one live channel id: the tag of its payload
/// type and, per worker, the share that is still to be collected.
pub struct EntryView<P> {
    pub tag: TypeTag,
    pub slots: Seq<Option<P>>,
}

/// Every slot has been taken.
pub open spec fn drained<P>(slots: Seq<Option<P>>) -> bool {
    forall|i: int| 0 <= i < slots.len() ==> (#[trigger] slots[i]) is None
}

/// The entry that `install` makes of the shares `payloads`: all of them
/// present, the share of worker `i` in slot `i`.
pub open spec fn fresh_entry<P>(tag: TypeTag, payloads: Seq<P>) -> EntryView<P> {
    EntryView { tag, slots: Seq::new(payloads.len(), |i: int| Some(payloads[i])) }
}

/// A table for `peers` workers is well formed when each of its entries has
/// `peers` slots, at least one of them not yet taken.
pub open spec fn table_wf<P>(table: Map<usize, EntryView<P>>, peers: nat) -> bool {
    forall|id: usize| #[trigger]
        table.contains_key(id) ==> table[id].slots.len() == peers && !drained(table[id].slots)
}

/// What worker `worker` gets when it asks for its share of the live channel
/// `id`, expecting the payload type `tag`.
pub open spec fn outcome<P>(
    table: Map<usize, EntryView<P>>,
    id: usize,
    tag: TypeTag,
    worker: int,
) -> Result<P, CommError> {
    if table[id].tag != tag {
        Err(CommError::TypeMismatch)
    } else {
        match table[id].slots[worker] {
            Some(share) => Ok(share),
            None => Err(CommError::SlotAlreadyConsumed),
        }
    }
}

/// The table after that request. A refused request leaves it as it was. A
/// granted one empties the worker's slot, and removes the entry if that was
/// its last one.
pub open spec fn after<P>(
    table: Map<usize, EntryView<P>>,
    id: usize,
    tag: TypeTag,
    worker: int,
) -> Map<usize, EntryView<P>> {
    if outcome(table, id, tag, worker) is Ok {
        let slots = table[id].slots.update(worker, None);
        if drained(slots) {
            table.remove(id)
        } else {
            table.insert(id, EntryView { tag: table[id].tag, slots })
        }
    } else {
        table
    }
}

/// The count of installed channels after one more, which stops at the
/// largest number that it can hold.
pub open spec fn counted(installs: usize) -> usize {
    if installs < usize::MAX {
        (installs + 1) as usize
    } else {
        installs
    }
}

/// One live channel id of the table.
pub struct Entry<P> {
    tag: TypeTag,
    slots: Vec<Option<P>>,
}

impl<P> Entry<P> {
    pub closed spec fn view(&self) -> EntryView<P> {
        EntryView { tag: self.tag, slots: self.slots@ }
    }
}

/// The channel table of one process, for a fixed number of workers.
pub struct Registry<P> {
    peers: usize,
    table: HashMap<usize, Entry<P>>,
    installs: usize,
}

impl<P> View for Registry<P> {
    type V = Map<usize, EntryView<P>>;

    closed spec fn view(&self) -> Map<usize, EntryView<P>> {
        Map::new(|id: usize| self.table@.contains_key(id), |id: usize| self.table@[id].view())
    }
}

fn all_taken<P>(slots: &Vec<Option<P>>) -> (r: bool)
    ensures
        r == drained(slots@),
{
    let mut i: usize = 0;
    while i < slots.len()
        invariant
            i <= slots.len(),
            forall|j: int| 0 <= j < i ==> (#[trigger] slots@[j]) is None,
        decreases slots.len() - i,
    {
        if slots[i].is_some() {
            return false;
        }
        i = i + 1;
    }
    true
}

impl<P> Registry<P> {
    #[verifier::type_invariant]
    spec fn inv(self) -> bool {
        table_wf(self@, self.peers as nat)
    }

    /// The number of workers that the table serves.
    pub closed spec fn spec_peers(&self) -> usize {
        self.peers
    }

    /// How many channels have been installed so far.
    pub closed spec fn spec_installs(&self) -> usize {
        self.installs
    }

    /// An empty table for `peers` workers.
    pub fn new(peers: usize) -> (r: Self)
        ensures
            r@ == Map::<usize, EntryView<P>>::empty(),
            r.peers() == peers,
            r.installs() == 0,
    {
        let r = Registry { peers, table: HashMap::new(), installs: 0 };
        assert(r@ =~= Map::<usize, EntryView<P>>::empty());
        r
    }

    /// The number of workers that the table serves.
    #[verifier::when_used_as_spec(spec_peers)]
    pub fn peers(&self) -> (r: usize)
        ensures
            r == self.peers(),
    {
        self.peers
    }

    /// How many channels have been installed so far. The count stops at
    /// the largest number that it can hold.
    #[verifier::when_used_as_spec(spec_installs)]
    pub fn installs(&self) -> (r: usize)
        ensures
            r == self.installs(),
    {
        self.installs
    }

    /// Whether channel `id` is live: installed, and not yet collected by
    /// every worker.
    pub fn contains(&self, id: usize) -> (r: bool)
        ensures
            r == self@.contains_key(id),
            table_wf(self@, self.peers() as nat),
    {
        proof {
            use_type_invariant(self);
        }
        self.table.contains_key(&id)
    }

    /// Whether the share of `worker` in the live channel `id` is still in
    /// the table.
    pub fn pending(&self, id: usize, worker: usize) -> (r: bool)
        ensures
            r == (self@.contains_key(id) && worker < self.peers()
                && self@[id].slots[worker as int] is Some),
    {
        proof {
            use_type_invariant(self);
        }
        match self.table.get(&id) {
            Some(entry) => {
                assert(self@.contains_key(id));
                worker < entry.slots.len() && entry.slots[worker].is_some()
            },
            None => false,
        }
    }

    /// Makes channel `id` live for the payload type `tag`, with
    /// `payloads[i]` as the share of worker `i`.
    pub fn install(&mut self, id: usize, tag: TypeTag, payloads: Vec<P>)
        requires
            !old(self)@.contains_key(id),
            payloads.len() == old(self).peers(),
            old(self).peers() > 0,
        ensures
            final(self)@ == old(self)@.insert(id, fresh_entry(tag, payloads@)),
            final(self).peers() == old(self).peers(),
            final(self).installs() == counted(old(self).installs()),
            table_wf(final(self)@, final(self).peers() as nat),
    {
        proof {
            use_type_invariant(&*self);
        }
        let ghost shares = payloads@;
        let mut slots: Vec<Option<P>> = Vec::new();
        for share in it: payloads.into_iter()
            invariant
                it.seq() == shares,
                slots.len() == it.index(),
                forall|i: int| 0 <= i < slots.len() ==> slots@[i] == Some(shares[i]),
        {
            slots.push(Some(share));
        }
        assert(slots@ =~= fresh_entry(tag, shares).slots);
        assert(slots@[0] is Some);
        let mut table: HashMap<usize, Entry<P>> = HashMap::new();
        core::mem::swap(&mut self.table, &mut table);
        table.insert(id, Entry { tag, slots });
        proof {
            let goal = old(self)@.insert(id, fresh_entry(tag, shares));
            let built = Map::new(
                |k: usize| table@.contains_key(k),
                |k: usize| table@[k].view(),
            );
            assert(built =~= goal);
            assert(table_wf(goal, self.peers as nat));
        }
        core::mem::swap(&mut self.table, &mut table);
        if self.installs < usize::MAX {
            self.installs = self.installs + 1;
        }
        assert(self@ =~= old(self)@.insert(id, fresh_entry(tag, shares)));
    }

    /// Hands worker `worker` its share of the live channel `id`, if the
    /// channel was built for the payload type `tag` and the worker has not
    /// had its share before. The last share to leave takes the entry with
    /// it.
    pub fn take(&mut self, id: usize, tag: &TypeTag, worker: usize) -> (r: Result<P, CommError>)
        requires
            old(self)@.contains_key(id),
            worker < old(self).peers(),
        ensures
            r == outcome(old(self)@, id, *tag, worker as int),
            final(self)@ == after(old(self)@, id, *tag, worker as int),
            final(self).peers() == old(self).peers(),
            final(self).installs() == old(self).installs(),
            table_wf(final(self)@, final(self).peers() as nat),
    {
        proof {
            use_type_invariant(&*self);
        }
        let refused = match self.table.get(&id) {
            Some(entry) => {
                if !entry.tag.same(tag) {
                    Some(CommError::TypeMismatch)
                } else if entry.slots[worker].is_none() {
                    Some(CommError::SlotAlreadyConsumed)
                } else {
                    None
                }
            },
            None => {
                proof {
                    assert(false);
                }
                unreached()
            },
        };
        if let Some(error) = refused {
            return Err(error);
        }
        let mut table: HashMap<usize, Entry<P>> = HashMap::new();
        core::mem::swap(&mut self.table, &mut table);
        let mut entry = match table.remove(&id) {
            Some(entry) => entry,
            None => {
                proof {
                    assert(false);
                }
                unreached()
            },
        };
        let share = match entry.slots[worker].take() {
            Some(share) => share,
            None => {
                proof {
                    assert(false);
                }
                unreached()
            },
        };
        assert(entry.slots@ =~= old(self)@[id].slots.update(worker as int, None));
        if !all_taken(&entry.slots) {
            table.insert(id, entry);
        }
        proof {
            let goal = after(old(self)@, id, *tag, worker as int);
            let built = Map::new(
                |k: usize| table@.contains_key(k),
                |k: usize| table@[k].view(),
            );
            assert(built =~= goal);
            assert(table_wf(goal, self.peers as nat));
        }
        core::mem::swap(&mut self.table, &mut table);
        assert(self@ =~= after(old(self)@, id, *tag, worker as int));
        Ok(share)
    }
}

} // verus!
