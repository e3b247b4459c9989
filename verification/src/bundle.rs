//! A worker's share of a channel: a producer towards every peer, each with
//! that peer's wake handle, and the worker's own consumer.

use crate::endpoint::{sub_channel, Puller, Pusher};
use crate::error::CommError;
use crate::thread::Event;
use std::sync::mpsc::Sender;
use vstd::prelude::*;

verus! {

/// The share of one worker, as the table keeps it until the worker comes
/// for it. `producers[j]` feeds the consumer of worker `j` and comes with
/// the handle that wakes worker `j`.
#[verifier::reject_recursive_types(T)]
pub struct Bundle<T, Z> {
    pub producers: Vec<(Pusher<T>, Z)>,
    pub consumer: Puller<T>,
}

/// A producer together with what a progress-counting wrapper is made
/// from: the channel id, the sending end of the destination's counter
/// inbox, and the destination's wake handle.
#[verifier::reject_recursive_types(T)]
pub struct BoundPusher<T, Z> {
    pub pusher: Pusher<T>,
    pub identifier: usize,
    pub counter: Sender<(usize, Event)>,
    pub buzzer: Z,
}

/// A consumer together with the channel id that its pulls are counted for.
#[verifier::reject_recursive_types(T)]
pub struct BoundPuller<T> {
    pub puller: Puller<T>,
    pub identifier: usize,
}

/// What a worker holds of a channel once it has collected its share.
#[verifier::reject_recursive_types(T)]
pub struct Allocation<T, Z> {
    pub pushers: Vec<BoundPusher<T, Z>>,
    pub puller: BoundPuller<T>,
}

impl<T, Z> Allocation<T, Z> {
    /// The allocation is that of channel `identifier` among `peers`
    /// workers: one producer per worker and one consumer, all bound to the
    /// channel id.
    pub open spec fn serves(&self, identifier: usize, peers: nat) -> bool {
        &&& self.pushers.len() == peers
        &&& self.puller.identifier == identifier
        &&& forall|j: int|
            0 <= j < self.pushers.len() ==> (#[trigger] self.pushers[j]).identifier == identifier
    }

    /// Producer `j` of the allocation reports to `counters[j]`.
    pub open spec fn counted_by(&self, counters: Seq<Sender<(usize, Event)>>) -> bool {
        &&& self.pushers.len() == counters.len()
        &&& forall|j: int|
            0 <= j < self.pushers.len() ==> (#[trigger] self.pushers[j]).counter == counters[j]
    }

    /// The allocation is made of the endpoints and wake handles of
    /// `bundle`, in their order.
    pub open spec fn made_of(&self, bundle: Bundle<T, Z>) -> bool {
        &&& self.pushers.len() == bundle.producers.len()
        &&& self.puller.puller == bundle.consumer
        &&& forall|j: int|
            0 <= j < self.pushers.len() ==> (#[trigger] self.pushers[j]).pusher
                == bundle.producers[j].0 && self.pushers[j].buzzer == bundle.producers[j].1
    }
}

/// A copy of every producer and wake handle of `producers`.
fn duplicate<T, Z: Clone>(producers: &Vec<(Pusher<T>, Z)>) -> (copy: Vec<(Pusher<T>, Z)>)
    ensures
        copy.len() == producers.len(),
        forall|j: int|
            0 <= j < copy.len() ==> (#[trigger] copy[j]).0 == producers[j].0 && cloned(
                producers[j].1,
                copy[j].1,
            ),
{
    let mut copy: Vec<(Pusher<T>, Z)> = Vec::new();
    let mut j: usize = 0;
    while j < producers.len()
        invariant
            j <= producers.len(),
            copy.len() == j,
            forall|k: int|
                0 <= k < copy.len() ==> (#[trigger] copy[k]).0 == producers[k].0 && cloned(
                    producers[k].1,
                    copy[k].1,
                ),
        decreases producers.len() - j,
    {
        copy.push((producers[j].0.clone(), producers[j].1.clone()));
        j = j + 1;
    }
    copy
}

/// The wake handle `copy` has been made from `buzzer` by cloning, once or
/// twice over.
pub open spec fn handed_on<Z: Clone>(buzzer: Z, copy: Z) -> bool {
    exists|first: Z| cloned(buzzer, first) && cloned(first, copy)
}

/// Builds a channel for as many workers as there are wake handles: one
/// sub-channel per destination, and for every worker a share with a
/// producer into each sub-channel and the consumer of its own. The
/// producer towards worker `j` is the same in every share, and comes with
/// a copy of the wake handle of worker `j`.
pub fn build_matrix<T, Z: Clone>(buzzers: &Vec<Z>) -> (shares: Vec<Bundle<T, Z>>)
    ensures
        shares.len() == buzzers.len(),
        forall|i: int, k: int, j: int|
            0 <= i < shares.len() && 0 <= k < shares.len() && 0 <= j < buzzers.len() ==> (
            #[trigger] shares[i].producers[j]).0 == (#[trigger] shares[k].producers[j]).0,
        forall|i: int|
            0 <= i < shares.len() ==> (#[trigger] shares[i]).producers.len() == buzzers.len()
                && shares[i].consumer@ == None::<T>,
        forall|i: int, j: int|
            0 <= i < shares.len() && 0 <= j < buzzers.len() ==> handed_on(
                buzzers[j],
                (#[trigger] shares[i].producers[j]).1,
            ),
{
    let peers = buzzers.len();
    let mut pushers: Vec<(Pusher<T>, Z)> = Vec::new();
    let mut pullers: Vec<Puller<T>> = Vec::new();
    let mut index: usize = 0;
    while index < peers
        invariant
            index <= peers,
            peers == buzzers.len(),
            pushers.len() == index,
            pullers.len() == index,
            forall|i: int| 0 <= i < pullers.len() ==> (#[trigger] pullers[i])@ == None::<T>,
            forall|j: int| 0 <= j < pushers.len() ==> cloned(buzzers[j], (#[trigger] pushers[j]).1),
        decreases peers - index,
    {
        let (pusher, puller) = sub_channel();
        pushers.push((pusher, buzzers[index].clone()));
        pullers.push(puller);
        index = index + 1;
    }
    let ghost consumers = pullers@;
    let mut shares: Vec<Bundle<T, Z>> = Vec::new();
    for consumer in it: pullers.into_iter()
        invariant
            it.seq() == consumers,
            consumers.len() == peers,
            pushers.len() == peers,
            peers == buzzers.len(),
            shares.len() == it.index(),
            forall|j: int| 0 <= j < pushers.len() ==> cloned(buzzers[j], (#[trigger] pushers[j]).1),
            forall|i: int, j: int|
                0 <= i < shares.len() && 0 <= j < peers ==> handed_on(
                    buzzers[j],
                    (#[trigger] shares[i].producers[j]).1,
                ),
            forall|i: int, j: int|
                0 <= i < shares.len() && 0 <= j < peers ==> (#[trigger] shares[i].producers[j]).0
                    == pushers[j].0,
            forall|i: int| 0 <= i < consumers.len() ==> (#[trigger] consumers[i])@ == None::<T>,
            forall|i: int|
                0 <= i < shares.len() ==> (#[trigger] shares[i]).producers.len() == peers
                    && shares[i].consumer@ == None::<T>,
    {
        let producers = duplicate(&pushers);
        proof {
            assert forall|j: int| 0 <= j < peers implies handed_on(
                buzzers[j],
                (#[trigger] producers[j]).1,
            ) by {
                assert(cloned(buzzers[j], pushers[j].1) && cloned(pushers[j].1, producers[j].1));
            }
        }
        shares.push(Bundle { producers, consumer });
    }
    shares
}

/// Binds a collected share to its channel id and to the counter inboxes of
/// the peers. A share that is not there, or that is not made for as many
/// peers as there are inboxes, is not of the type that was asked for.
pub fn bind<T, Z>(
    restored: Option<Bundle<T, Z>>,
    identifier: usize,
    counters: &Vec<Sender<(usize, Event)>>,
) -> (r: Result<Allocation<T, Z>, CommError>)
    ensures
        match restored {
            Some(bundle) => if bundle.producers.len() == counters.len() {
                &&& r matches Ok(allocation)
                &&& allocation.serves(identifier, counters.len() as nat)
                &&& allocation.counted_by(counters@)
                &&& allocation.made_of(bundle)
            } else {
                r matches Err(e) && e == CommError::TypeMismatch
            },
            None => r matches Err(e) && e == CommError::TypeMismatch,
        },
{
    let bundle = match restored {
        Some(bundle) => bundle,
        None => {
            return Err(CommError::TypeMismatch);
        },
    };
    if bundle.producers.len() != counters.len() {
        return Err(CommError::TypeMismatch);
    }
    let Bundle { producers, consumer } = bundle;
    let ghost pairs = producers@;
    let mut pushers: Vec<BoundPusher<T, Z>> = Vec::new();
    for pair in it: producers.into_iter()
        invariant
            it.seq() == pairs,
            pairs.len() == counters.len(),
            pushers.len() == it.index(),
            forall|j: int|
                0 <= j < pushers.len() ==> (#[trigger] pushers[j]).identifier == identifier
                    && pushers[j].pusher == pairs[j].0 && pushers[j].buzzer == pairs[j].1
                    && pushers[j].counter == counters[j],
    {
        let (pusher, buzzer) = pair;
        let counter = counters[pushers.len()].clone();
        pushers.push(BoundPusher { pusher, identifier, counter, buzzer });
    }
    Ok(Allocation { pushers, puller: BoundPuller { puller: consumer, identifier } })
}

} // verus!
