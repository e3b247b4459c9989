//! One-shot handoff channels between every pair of workers.

use std::sync::mpsc::{channel, Receiver, Sender};
use vstd::prelude::*;

verus! {

/// A grid of `rows` by `width` endpoints.
pub open spec fn grid<E>(ends: Seq<Vec<E>>, rows: nat, width: nat) -> bool {
    &&& ends.len() == rows
    &&& forall|i: int| 0 <= i < ends.len() ==> (#[trigger] ends[i]).len() == width
}

/// A channel from each of `sends` senders to each of `recvs` receivers.
/// Sender `i` gets row `i` of the first grid, one sending end per receiver;
/// receiver `j` gets row `j` of the second, one receiving end per sender.
pub fn promise_futures<T>(sends: usize, recvs: usize) -> (ends: (
    Vec<Vec<Sender<T>>>,
    Vec<Vec<Receiver<T>>>,
))
    ensures
        grid(ends.0@, sends as nat, recvs as nat),
        grid(ends.1@, recvs as nat, sends as nat),
{
    let mut recvers: Vec<Vec<Receiver<T>>> = Vec::new();
    let mut recver: usize = 0;
    while recver < recvs
        invariant
            recver <= recvs,
            grid(recvers@, recver as nat, 0),
        decreases recvs - recver,
    {
        recvers.push(Vec::new());
        recver = recver + 1;
    }
    let mut senders: Vec<Vec<Sender<T>>> = Vec::new();
    let mut sender: usize = 0;
    while sender < sends
        invariant
            sender <= sends,
            grid(senders@, sender as nat, recvs as nat),
            grid(recvers@, recvs as nat, sender as nat),
        decreases sends - sender,
    {
        let mut row: Vec<Sender<T>> = Vec::new();
        let mut recver: usize = 0;
        while recver < recvs
            invariant
                recver <= recvs,
                sender < sends,
                row.len() == recver,
                recvers.len() == recvs,
                forall|j: int| 0 <= j < recver ==> (#[trigger] recvers@[j]).len() == sender + 1,
                forall|j: int| recver <= j < recvs ==> (#[trigger] recvers@[j]).len() == sender,
            decreases recvs - recver,
        {
            let (send, recv) = channel();
            row.push(send);
            recvers[recver].push(recv);
            recver = recver + 1;
        }
        senders.push(row);
        sender = sender + 1;
    }
    (senders, recvers)
}

} // verus!
