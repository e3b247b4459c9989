//! Typed inter-thread, intra-process channels.

use crate::bundle::{bind, build_matrix, Allocation, Bundle};
use crate::erased::{erase, restore, Erased};
use crate::error::CommError;
use crate::lock::{guarded, peek, share};
use crate::promise::{grid, promise_futures};
use crate::registry::{after, counted, fresh_entry, outcome, EntryView, Registry};
use crate::tag::TypeTag;
use crate::thread::{Event, Thread, ThreadBuilder, Wait};
use std::collections::VecDeque;
use std::sync::mpsc::{channel, Receiver, RecvError, SendError, Sender};
use std::sync::{Arc, Mutex, MutexGuard, PoisonError};
use std::time::Duration;
use vstd::pervasive::unreached;
use vstd::prelude::*;

verus! {

/// What a worker gets from the table of `before` when it asks for its
/// share of channel `identifier`, and the table that it leaves behind. On
/// a channel that is not live the worker first installs `shares`, one per
/// worker, and is then served like any other.
pub open spec fn served(
    before: Map<usize, EntryView<Erased>>,
    identifier: usize,
    tag: TypeTag,
    index: int,
    shares: Seq<Erased>,
) -> (Result<Erased, CommError>, Map<usize, EntryView<Erased>>) {
    let live = if before.contains_key(identifier) {
        before
    } else {
        before.insert(identifier, fresh_entry(tag, shares))
    };
    (outcome(live, identifier, tag, index), after(live, identifier, tag, index))
}

/// Hides the payload type of every share.
fn erase_all<T: Send + 'static, Z: Send + 'static>(shares: Vec<Bundle<T, Z>>) -> (erased: Vec<
    Erased,
>)
    ensures
        erased.len() == shares.len(),
{
    let ghost given = shares@;
    let mut erased: Vec<Erased> = Vec::new();
    for bundle in it: shares.into_iter()
        invariant
            it.seq() == given,
            erased.len() == it.index(),
    {
        erased.push(erase(bundle));
    }
    erased
}

/// Serves worker `index` its share of channel `identifier` from the table,
/// as the holder of the table's lock does. If the channel is not live, it
/// is built first, for the payload type `T` and with the wake handles of
/// `buzzers`, so that the first worker to ask builds it for all.
pub fn allocate_in<T: Send + 'static, Z: Clone + Send + 'static>(
    registry: &mut Registry<Erased>,
    identifier: usize,
    tag: &TypeTag,
    index: usize,
    buzzers: &Vec<Z>,
) -> (r: Result<Erased, CommError>)
    requires
        index < old(registry).peers(),
        buzzers.len() == old(registry).peers(),
    ensures
        final(registry).peers() == old(registry).peers(),
        final(registry).installs() == if old(registry)@.contains_key(identifier) {
            old(registry).installs()
        } else {
            counted(old(registry).installs())
        },
        exists|shares: Seq<Erased>|
            shares.len() == buzzers.len() && (r, final(registry)@) == #[trigger] served(
                old(registry)@,
                identifier,
                *tag,
                index as int,
                shares,
            ),
{
    if registry.contains(identifier) {
        let r = registry.take(identifier, tag, index);
        proof {
            let shares = Seq::new(buzzers.len() as nat, |i: int| arbitrary::<Erased>());
            assert((r, registry@) == served(old(registry)@, identifier, *tag, index as int, shares));
        }
        r
    } else {
        let shares = erase_all(build_matrix::<T, Z>(buzzers));
        let ghost installed = shares@;
        registry.install(identifier, *tag, shares);
        let r = registry.take(identifier, tag, index);
        proof {
            assert((r, registry@) == served(
                old(registry)@,
                identifier,
                *tag,
                index as int,
                installed,
            ));
        }
        r
    }
}

/// Serves worker `index` from the table that it found behind the lock. A
/// table that is not made for this worker, because the worker's index or
/// the number of its wake handles does not fit the table's number of
/// workers, is refused as corrupted and left as it was. From any other
/// table the worker is served as `allocate_in` says.
pub fn serve_found<T: Send + 'static, Z: Clone + Send + 'static>(
    found: &mut Registry<Erased>,
    identifier: usize,
    tag: &TypeTag,
    index: usize,
    buzzers: &Vec<Z>,
) -> (r: Result<Erased, CommError>)
    ensures
        final(found).peers() == old(found).peers(),
        !(index < old(found).peers() && buzzers.len() == old(found).peers()) ==> {
            &&& r == Err::<Erased, CommError>(CommError::RegistryLockCorrupted)
            &&& final(found)@ == old(found)@
            &&& final(found).installs() == old(found).installs()
        },
        index < old(found).peers() && buzzers.len() == old(found).peers() ==> {
            &&& final(found).installs() == if old(found)@.contains_key(identifier) {
                old(found).installs()
            } else {
                counted(old(found).installs())
            }
            &&& exists|shares: Seq<Erased>|
                shares.len() == buzzers.len() && (r, final(found)@) == #[trigger] served(
                    old(found)@,
                    identifier,
                    *tag,
                    index as int,
                    shares,
                )
        },
{
    if index < found.peers() && buzzers.len() == found.peers() {
        allocate_in::<T, Z>(found, identifier, tag, index, buzzers)
    } else {
        Err(CommError::RegistryLockCorrupted)
    }
}

/// What a worker has after asking for the lock of the shared table: the
/// held lock, or, if an earlier holder failed while it held the lock, the
/// report that the table is corrupted.
pub fn found_or_corrupted<'a>(
    locked: Result<
        MutexGuard<'a, Registry<Erased>>,
        PoisonError<MutexGuard<'a, Registry<Erased>>>,
    >,
) -> (r: Result<MutexGuard<'a, Registry<Erased>>, CommError>)
    ensures
        match locked {
            Ok(guard) => r == Ok::<MutexGuard<'a, Registry<Erased>>, CommError>(guard),
            Err(_) => r == Err::<MutexGuard<'a, Registry<Erased>>, CommError>(
                CommError::RegistryLockCorrupted,
            ),
        },
{
    match locked {
        Ok(guard) => Ok(guard),
        Err(_) => Err(CommError::RegistryLockCorrupted),
    }
}

/// Whether channel `id` is live in the table that a worker found behind
/// the lock. A worker that found the lock poisoned found no table, and
/// reports that.
pub fn live_in<P>(found: Option<&Registry<P>>, id: usize) -> (r: Result<bool, CommError>)
    ensures
        match found {
            Some(table) => r == Ok::<bool, CommError>(table@.contains_key(id)),
            None => r == Err::<bool, CommError>(CommError::RegistryLockCorrupted),
        },
{
    match found {
        Some(table) => Ok(table.contains(id)),
        None => Err(CommError::RegistryLockCorrupted),
    }
}

/// How many channels have been installed in the table that a worker found
/// behind the lock. A worker that found the lock poisoned found no table,
/// and reports that.
pub fn built_in<P>(found: Option<&Registry<P>>) -> (r: Result<usize, CommError>)
    ensures
        match found {
            Some(table) => r == Ok::<usize, CommError>(table.installs()),
            None => r == Err::<usize, CommError>(CommError::RegistryLockCorrupted),
        },
{
    match found {
        Some(table) => Ok(table.installs()),
        None => Err(CommError::RegistryLockCorrupted),
    }
}

/// An allocator for inter-thread, intra-process communication, before the
/// workers have exchanged their wake handles.
#[verifier::reject_recursive_types(Z)]
pub struct ProcessBuilder<Z> {
    inner: ThreadBuilder,
    index: usize,
    peers: usize,
    channels: Arc<Mutex<Registry<Erased>>>,
    buzzers_send: Vec<Sender<Z>>,
    buzzers_recv: Vec<Receiver<Z>>,
    counters_send: Vec<Sender<(usize, Event)>>,
    counters_recv: Receiver<(usize, Event)>,
}

impl<Z> ProcessBuilder<Z> {
    /// The builder has a handoff channel to and from every peer, and the
    /// sending end of every peer's counter inbox.
    #[verifier::type_invariant]
    spec fn wf(&self) -> bool {
        &&& self.index < self.peers
        &&& self.buzzers_send.len() == self.peers
        &&& self.buzzers_recv.len() == self.peers
        &&& self.counters_send.len() == self.peers
    }
}

impl<Z: Clone + Send + 'static> ProcessBuilder<Z> {
    pub closed spec fn spec_index(&self) -> usize {
        self.index
    }

    pub closed spec fn spec_peers(&self) -> usize {
        self.peers
    }

    /// The channel table that the worker shares with its peers.
    pub closed spec fn table(&self) -> Arc<Mutex<Registry<Erased>>> {
        self.channels
    }

    /// The receiving end of the worker's own counter inbox.
    pub closed spec fn inbox(&self) -> Receiver<(usize, Event)> {
        self.counters_recv
    }

    /// The sending ends of the counter inboxes of the peers, in their
    /// order.
    pub closed spec fn outboxes(&self) -> Seq<Sender<(usize, Event)>> {
        self.counters_send@
    }

    /// The index of the worker that this builder is for.
    #[verifier::when_used_as_spec(spec_index)]
    pub fn index(&self) -> (index: usize)
        ensures
            index == self.index(),
    {
        self.index
    }

    /// The number of workers.
    #[verifier::when_used_as_spec(spec_peers)]
    pub fn peers(&self) -> (peers: usize)
        ensures
            peers == self.peers(),
    {
        self.peers
    }

    /// How a handed-over wake handle is received: a handoff channel that
    /// breaks fails the worker's setup.
    pub fn handed_over(received: Result<Z, RecvError>) -> (r: Result<Z, CommError>)
        ensures
            match received {
                Ok(buzzer) => r == Ok::<Z, CommError>(buzzer),
                Err(_) => r == Err::<Z, CommError>(CommError::BuzzerExchangeFailed),
            },
    {
        match received {
            Ok(buzzer) => Ok(buzzer),
            Err(_) => Err(CommError::BuzzerExchangeFailed),
        }
    }

    /// How the sending of a wake handle is reported: a handoff channel
    /// whose receiving end is gone fails the worker's setup.
    pub fn handed_off(sent: Result<(), SendError<Z>>) -> (r: Result<(), CommError>)
        ensures
            match sent {
                Ok(_) => r == Ok::<(), CommError>(()),
                Err(_) => r == Err::<(), CommError>(CommError::BuzzerExchangeFailed),
            },
    {
        match sent {
            Ok(_) => Ok(()),
            Err(_) => Err(CommError::BuzzerExchangeFailed),
        }
    }

    /// First phase of the exchange: sends a copy of the worker's own wake
    /// handle to every peer, itself included, and stops at the first peer
    /// that cannot be reached. It does not wait for anyone.
    pub fn announce(&self, buzzer: &Z) -> (r: Result<(), CommError>)
        ensures
            r matches Err(e) ==> e == CommError::BuzzerExchangeFailed,
    {
        let mut peer: usize = 0;
        while peer < self.buzzers_send.len()
            invariant
                peer <= self.buzzers_send.len(),
            decreases self.buzzers_send.len() - peer,
        {
            match Self::handed_off(self.buzzers_send[peer].send(buzzer.clone())) {
                Ok(_) => {},
                Err(e) => {
                    return Err(e);
                },
            }
            peer = peer + 1;
        }
        Ok(())
    }

    /// Makes the worker's allocator of the wake handles that the peers
    /// have handed over, `buzzers[i]` being the one that wakes worker `i`.
    pub fn assemble(self, buzzers: Vec<Z>) -> (process: Process<Z>)
        requires
            buzzers.len() == self.peers(),
        ensures
            process.index() == self.index(),
            process.peers() == self.peers(),
            process.wake_handles() == buzzers@,
            process.table() == self.table(),
            process.inbox() == self.inbox(),
            process.outboxes() == self.outboxes(),
            process.thread()@ == Seq::<(usize, Event)>::empty(),
    {
        proof {
            use_type_invariant(&self);
        }
        Process {
            inner: self.inner.build(),
            links: Links {
                index: self.index,
                peers: self.peers,
                channels: self.channels,
                buzzers,
                counters_send: self.counters_send,
                counters_recv: self.counters_recv,
            },
        }
    }

    /// Second phase of the exchange: receives one wake handle from every
    /// peer, in the order of the peers, waiting for each, and makes the
    /// worker's allocator of them.
    pub fn collect(self) -> (r: Result<Process<Z>, CommError>)
        ensures
            match r {
                Ok(process) => {
                    &&& process.index() == self.index()
                    &&& process.peers() == self.peers()
                    &&& process.wake_handles().len() == self.peers()
                    &&& process.table() == self.table()
                    &&& process.inbox() == self.inbox()
                    &&& process.outboxes() == self.outboxes()
                    &&& process.thread()@ == Seq::<(usize, Event)>::empty()
                },
                Err(e) => e == CommError::BuzzerExchangeFailed,
            },
    {
        proof {
            use_type_invariant(&self);
        }
        let mut buzzers: Vec<Z> = Vec::new();
        let mut peer: usize = 0;
        while peer < self.buzzers_recv.len()
            invariant
                peer <= self.buzzers_recv.len(),
                buzzers.len() == peer,
            decreases self.buzzers_recv.len() - peer,
        {
            match Self::handed_over(self.buzzers_recv[peer].recv()) {
                Ok(buzzer) => buzzers.push(buzzer),
                Err(e) => {
                    return Err(e);
                },
            }
            peer = peer + 1;
        }
        Ok(self.assemble(buzzers))
    }

    /// Runs both phases of the exchange, sending to all before receiving
    /// from any: a worker that waited for a peer's handle before sending
    /// its own could keep that peer waiting for ever.
    pub fn build(self, buzzer: Z) -> (r: Result<Process<Z>, CommError>)
        ensures
            match r {
                Ok(process) => {
                    &&& process.index() == self.index()
                    &&& process.peers() == self.peers()
                    &&& process.wake_handles().len() == self.peers()
                    &&& process.table() == self.table()
                    &&& process.inbox() == self.inbox()
                    &&& process.outboxes() == self.outboxes()
                    &&& process.thread()@ == Seq::<(usize, Event)>::empty()
                },
                Err(e) => e == CommError::BuzzerExchangeFailed,
            },
    {
        match self.announce(&buzzer) {
            Ok(_) => self.collect(),
            Err(e) => Err(e),
        }
    }
}

/// What ties a worker to its peers: the shared table, the wake handles
/// of the peers, and the counter inboxes.
#[verifier::reject_recursive_types(Z)]
struct Links<Z> {
    index: usize,
    peers: usize,
    channels: Arc<Mutex<Registry<Erased>>>,
    buzzers: Vec<Z>,
    counters_send: Vec<Sender<(usize, Event)>>,
    counters_recv: Receiver<(usize, Event)>,
}

impl<Z> Links<Z> {
    /// There is a wake handle and a counter inbox for every peer.
    #[verifier::type_invariant]
    spec fn wf(&self) -> bool {
        &&& self.index < self.peers
        &&& self.buzzers.len() == self.peers
        &&& self.counters_send.len() == self.peers
    }
}

/// An allocator for inter-thread, intra-process communication.
#[verifier::reject_recursive_types(Z)]
pub struct Process<Z> {
    inner: Thread,
    links: Links<Z>,
}

impl<Z: Clone + Send + 'static> Process<Z> {
    pub closed spec fn spec_index(&self) -> usize {
        self.links.index
    }

    pub closed spec fn spec_peers(&self) -> usize {
        self.links.peers
    }

    /// The wrapped allocator of the single worker.
    pub closed spec fn thread(&self) -> Thread {
        self.inner
    }

    /// The wake handles of the peers, in their order.
    pub closed spec fn wake_handles(&self) -> Seq<Z> {
        self.links.buzzers@
    }

    /// The channel table that the worker shares with its peers.
    pub closed spec fn table(&self) -> Arc<Mutex<Registry<Erased>>> {
        self.links.channels
    }

    /// The receiving end of the worker's own counter inbox.
    pub closed spec fn inbox(&self) -> Receiver<(usize, Event)> {
        self.links.counters_recv
    }

    /// The sending ends of the counter inboxes of the peers, in their
    /// order: one per worker.
    pub closed spec fn outboxes(&self) -> Seq<Sender<(usize, Event)>> {
        self.links.counters_send@
    }

    /// `self` is `before` but for the wrapped allocator: the same worker
    /// among the same peers, with the same table, wake handles and counter
    /// channels.
    pub open spec fn rewraps(&self, before: &Self) -> bool {
        &&& self.index() == before.index()
        &&& self.peers() == before.peers()
        &&& self.wake_handles() == before.wake_handles()
        &&& self.table() == before.table()
        &&& self.inbox() == before.inbox()
        &&& self.outboxes() == before.outboxes()
    }

    /// Access the wrapped inner allocator.
    pub fn inner<'a>(&'a mut self) -> (thread: &'a mut Thread)
        ensures
            *thread == old(self).thread(),
            final(self).thread() == *final(thread),
            final(self).rewraps(old(self)),
    {
        &mut self.inner
    }

    /// Allocate a list of connected intra-process allocators.
    pub fn new_vector(peers: usize) -> (builders: Vec<ProcessBuilder<Z>>)
        ensures
            builders.len() == peers,
            forall|i: int|
                0 <= i < builders.len() ==> {
                    &&& (#[trigger] builders[i]).index() == i
                    &&& builders[i].peers() == peers
                    &&& builders[i].outboxes().len() == peers
                },
            forall|i: int, k: int|
                0 <= i < builders.len() && 0 <= k < builders.len() ==> {
                    &&& (#[trigger] builders[i]).table() == (#[trigger] builders[k]).table()
                    &&& builders[i].outboxes() == builders[k].outboxes()
                },
    {
        let mut counters_send: Vec<Sender<(usize, Event)>> = Vec::new();
        let mut counters_recv: Vec<Receiver<(usize, Event)>> = Vec::new();
        let mut made: usize = 0;
        while made < peers
            invariant
                made <= peers,
                counters_send.len() == made,
                counters_recv.len() == made,
            decreases peers - made,
        {
            let (send, recv) = channel();
            counters_send.push(send);
            counters_recv.push(recv);
            made = made + 1;
        }
        let channels = Arc::new(Mutex::new(Registry::new(peers)));
        let (mut buzzers_send, mut buzzers_recv) = promise_futures::<Z>(peers, peers);

        // The rows leave their vectors from the back, so the builders are
        // made from the last worker down and then put in order.
        let mut stack: Vec<ProcessBuilder<Z>> = Vec::new();
        let mut left: usize = peers;
        while left > 0
            invariant
                left <= peers,
                counters_send.len() == peers,
                counters_recv.len() == left,
                grid(buzzers_send@, left as nat, peers as nat),
                grid(buzzers_recv@, left as nat, peers as nat),
                stack.len() == peers - left,
                forall|k: int|
                    0 <= k < stack.len() ==> {
                        &&& (#[trigger] stack[k]).index() == peers - 1 - k
                        &&& stack[k].peers() == peers
                        &&& stack[k].table() == channels
                        &&& stack[k].outboxes() == counters_send@
                    },
            decreases left,
        {
            left = left - 1;
            let ghost sends = buzzers_send@;
            let ghost recvs = buzzers_recv@;
            match (counters_recv.pop(), buzzers_send.pop(), buzzers_recv.pop()) {
                (Some(recv), Some(bsend), Some(brecv)) => {
                    assert(bsend == sends[left as int]);
                    assert(brecv == recvs[left as int]);
                    let counters = counters_send.clone();
                    assert(counters@ =~= counters_send@);
                    stack.push(
                        ProcessBuilder {
                            inner: ThreadBuilder {  },
                            index: left,
                            peers,
                            channels: share(&channels),
                            buzzers_send: bsend,
                            buzzers_recv: brecv,
                            counters_send: counters,
                            counters_recv: recv,
                        },
                    );
                },
                _ => {
                    proof {
                        assert(false);
                    }
                    unreached()
                },
            }
        }
        let mut builders: Vec<ProcessBuilder<Z>> = Vec::new();
        while stack.len() > 0
            invariant
                builders.len() + stack.len() == peers,
                counters_send.len() == peers,
                forall|k: int|
                    0 <= k < stack.len() ==> {
                        &&& (#[trigger] stack[k]).index() == peers - 1 - k
                        &&& stack[k].peers() == peers
                        &&& stack[k].table() == channels
                        &&& stack[k].outboxes() == counters_send@
                    },
                forall|i: int|
                    0 <= i < builders.len() ==> {
                        &&& (#[trigger] builders[i]).index() == i
                        &&& builders[i].peers() == peers
                        &&& builders[i].table() == channels
                        &&& builders[i].outboxes() == counters_send@
                    },
            decreases stack.len(),
        {
            match stack.pop() {
                Some(builder) => builders.push(builder),
                None => {
                    proof {
                        assert(false);
                    }
                    unreached()
                },
            }
        }
        builders
    }

    /// The index of the worker among its peers.
    #[verifier::when_used_as_spec(spec_index)]
    pub fn index(&self) -> (index: usize)
        ensures
            index == self.index(),
            index < self.peers(),
    {
        proof {
            use_type_invariant(&self.links);
        }
        self.links.index
    }

    /// The number of workers.
    #[verifier::when_used_as_spec(spec_peers)]
    pub fn peers(&self) -> (peers: usize)
        ensures
            peers == self.peers(),
    {
        self.links.peers
    }

    /// The wake handles of the peers, in their order: one per worker.
    pub fn buzzers(&self) -> (buzzers: &Vec<Z>)
        ensures
            buzzers@ == self.wake_handles(),
            buzzers.len() == self.peers(),
    {
        proof {
            use_type_invariant(&self.links);
        }
        &self.links.buzzers
    }

    /// The worker's share of channel `identifier`, for messages of type
    /// `T`: a producer towards every peer and the worker's own consumer,
    /// each bound to the channel id. The first worker to ask for a channel
    /// builds it for all; a worker asks once per channel.
    pub fn allocate<T: Send + 'static>(&mut self, identifier: usize) -> (r: Result<
        Allocation<T, Z>,
        CommError,
    >)
        ensures
            *final(self) == *old(self),
            match r {
                Ok(allocation) => {
                    &&& allocation.serves(identifier, old(self).peers() as nat)
                    &&& allocation.counted_by(old(self).outboxes())
                },
                Err(e) => e == CommError::RegistryLockCorrupted || e == CommError::TypeMismatch || e
                    == CommError::SlotAlreadyConsumed,
            },
    {
        proof {
            use_type_invariant(&self.links);
        }
        let tag = TypeTag::of::<T>();
        let taken = match found_or_corrupted(self.links.channels.lock()) {
            Ok(mut guard) => serve_found::<T, Z>(
                guarded(&mut guard),
                identifier,
                &tag,
                self.links.index,
                &self.links.buzzers,
            ),
            Err(e) => {
                return Err(e);
            },
        };
        match taken {
            Ok(erased) => bind(
                restore::<Bundle<T, Z>>(erased),
                identifier,
                &self.links.counters_send,
            ),
            Err(e) => Err(e),
        }
    }

    /// Whether channel `identifier` is live in the shared table: built,
    /// and not yet collected by every worker. The answer is that of
    /// `live_in` for the table that the lock gives at this moment.
    pub fn is_live(&self, identifier: usize) -> (r: Result<bool, CommError>)
        ensures
            r matches Err(e) ==> e == CommError::RegistryLockCorrupted,
    {
        match self.links.channels.lock() {
            Ok(guard) => live_in(Some(peek(&guard)), identifier),
            Err(_) => live_in::<Erased>(None, identifier),
        }
    }

    /// How many channels have been built in the shared table so far, by
    /// any worker. The answer is that of `built_in` for the table that the
    /// lock gives at this moment.
    pub fn constructions(&self) -> (r: Result<usize, CommError>)
        ensures
            r matches Err(e) ==> e == CommError::RegistryLockCorrupted,
    {
        match self.links.channels.lock() {
            Ok(guard) => built_in(Some(peek(&guard))),
            Err(_) => built_in::<Erased>(None),
        }
    }

    /// The worker's queued events, oldest first.
    pub fn events(&self) -> (events: &VecDeque<(usize, Event)>)
        ensures
            events@ == self.thread()@,
    {
        self.inner.events()
    }

    /// Whether the worker should sleep, and for how long at most: not at
    /// all while events are queued, else for the given time, or without a
    /// limit if none is given.
    pub fn await_events(&self, duration: Option<Duration>) -> (wait: Wait)
        ensures
            self.thread()@.len() > 0 ==> wait is Ready,
            self.thread()@.len() == 0 ==> match duration {
                Some(limit) => wait == Wait::AtMost(limit),
                None => wait is UntilWoken,
            },
    {
        self.inner.await_events(duration)
    }

    /// Moves what is waiting in the worker's counter inbox to the end of
    /// its event queue, without blocking.
    pub fn receive(&mut self)
        ensures
            final(self).rewraps(old(self)),
            old(self).thread()@.is_prefix_of(final(self).thread()@),
    {
        let mut budget: usize = usize::MAX;
        while budget > 0
            invariant
                self.rewraps(old(self)),
                old(self).thread()@.is_prefix_of(self.thread()@),
            decreases budget,
        {
            let received = self.links.counters_recv.try_recv();
            if !self.inner.absorb(received) {
                return ;
            }
            budget = budget - 1;
        }
    }
}

} // verus!
