//! What holds of the table over a whole round of requests: every worker is
//! served its own share exactly once, in whatever order the workers come,
//! and the channel id is free again when the last of them has been served.

use crate::error::CommError;
use crate::registry::{after, drained, fresh_entry, outcome, table_wf, EntryView};
use crate::tag::TypeTag;
use vstd::prelude::*;

verus! {

/// The table after the workers in `workers` have asked for their share of
/// channel `id`, one after the other, each expecting the payload type `tag`.
pub open spec fn after_all<P>(
    table: Map<usize, EntryView<P>>,
    id: usize,
    tag: TypeTag,
    workers: Seq<usize>,
) -> Map<usize, EntryView<P>>
    decreases workers.len(),
{
    if workers.len() == 0 {
        table
    } else {
        after_all(after(table, id, tag, workers[0] as int), id, tag, workers.drop_first())
    }
}

/// Channel `id` is live in a well-formed table for `peers` workers, was
/// built for `tag`, and `workers` lists, each once, exactly the workers
/// whose share is still in the table.
pub open spec fn owed_to<P>(
    table: Map<usize, EntryView<P>>,
    peers: usize,
    id: usize,
    tag: TypeTag,
    workers: Seq<usize>,
) -> bool {
    &&& table_wf(table, peers as nat)
    &&& table.contains_key(id)
    &&& table[id].tag == tag
    &&& workers.no_duplicates()
    &&& forall|w: usize|
        w < peers ==> (table[id].slots[w as int] is Some <==> #[trigger] workers.contains(w))
    &&& forall|w: usize| #[trigger] workers.contains(w) ==> w < peers
}

/// Serving the first of the workers that are owed a share leaves a table
/// in which exactly the others are owed theirs, unchanged.
proof fn lemma_first_served<P>(
    table: Map<usize, EntryView<P>>,
    peers: usize,
    id: usize,
    tag: TypeTag,
    workers: Seq<usize>,
)
    requires
        owed_to(table, peers, id, tag, workers),
    ensures
        workers.len() >= 1,
        outcome(table, id, tag, workers[0] as int) == Ok::<P, CommError>(
            table[id].slots[workers[0] as int]->0,
        ),
        workers.len() == 1 ==> after(table, id, tag, workers[0] as int) == table.remove(id),
        workers.len() > 1 ==> {
            let next = after(table, id, tag, workers[0] as int);
            &&& owed_to(next, peers, id, tag, workers.drop_first())
            &&& forall|w: usize|
                #![trigger next[id].slots[w as int]]
                w < peers && w != workers[0] ==> next[id].slots[w as int] == table[id].slots[w as int]
            &&& forall|other: usize|
                other != id ==> next.contains_key(other) == table.contains_key(other)
        },
{
    let slots = table[id].slots;
    if workers.len() == 0 {
        assert forall|i: int| 0 <= i < slots.len() implies (#[trigger] slots[i]) is None by {
            let w = i as usize;
            assert(!workers.contains(w));
        }
        assert(drained(slots));
    }
    let first = workers[0];
    assert(workers.contains(first));
    let rest = workers.drop_first();
    let emptied = slots.update(first as int, None);
    if workers.len() == 1 {
        assert forall|i: int| 0 <= i < emptied.len() implies (#[trigger] emptied[i]) is None by {
            let w = i as usize;
            if w != first {
                if workers.contains(w) {
                    let k = choose|k: int| 0 <= k < workers.len() && workers[k] == w;
                    assert(k == 0);
                }
            }
        }
        assert(drained(emptied));
    } else {
        let second = workers[1];
        assert(workers.contains(second));
        assert(second != first);
        assert(emptied[second as int] is Some);
        assert(!drained(emptied));
        let next = after(table, id, tag, first as int);
        assert(next == table.insert(id, EntryView { tag: table[id].tag, slots: emptied }));
        assert(rest.no_duplicates()) by {
            assert forall|i: int, j: int|
                0 <= i < rest.len() && 0 <= j < rest.len() && i != j implies rest[i] != rest[j] by {
                assert(rest[i] == workers[i + 1]);
                assert(rest[j] == workers[j + 1]);
            }
        }
        assert forall|w: usize| #[trigger] rest.contains(w) implies w < peers && w != first by {
            let k = choose|k: int| 0 <= k < rest.len() && rest[k] == w;
            assert(workers[k + 1] == w);
            assert(workers.contains(w));
        }
        assert forall|w: usize| w < peers implies (next[id].slots[w as int] is Some
            <==> #[trigger] rest.contains(w)) by {
            if w != first && workers.contains(w) {
                let k = choose|k: int| 0 <= k < workers.len() && workers[k] == w;
                assert(k != 0);
                assert(rest[k - 1] == w);
            }
        }
        assert(table_wf(next, peers as nat)) by {
            assert forall|other: usize| #[trigger] next.contains_key(other) implies next[other].slots.len()
                == peers && !drained(next[other].slots) by {
                if other != id {
                    assert(table.contains_key(other));
                }
            }
        }
    }
}

/// Whatever the order in which the workers come, each of them is handed
/// the share that was installed for it.
pub proof fn lemma_each_worker_gets_its_share<P>(
    table: Map<usize, EntryView<P>>,
    peers: usize,
    id: usize,
    tag: TypeTag,
    workers: Seq<usize>,
    turn: int,
)
    requires
        owed_to(table, peers, id, tag, workers),
        0 <= turn < workers.len(),
    ensures
        after_all(table, id, tag, workers.take(turn)).contains_key(id),
        outcome(after_all(table, id, tag, workers.take(turn)), id, tag, workers[turn] as int)
            == Ok::<P, CommError>(table[id].slots[workers[turn] as int]->0),
    decreases turn,
{
    lemma_first_served(table, peers, id, tag, workers);
    if turn == 0 {
        assert(workers.take(0).len() == 0);
    } else {
        let next = after(table, id, tag, workers[0] as int);
        let rest = workers.drop_first();
        assert(workers.take(turn).drop_first() =~= rest.take(turn - 1));
        assert(workers.take(turn)[0] == workers[0]);
        lemma_each_worker_gets_its_share(next, peers, id, tag, rest, turn - 1);
        assert(rest[turn - 1] == workers[turn]);
        assert(workers.contains(workers[turn]));
        assert(workers[turn] != workers[0]);
    }
}

/// Once every worker that was owed a share has collected it, the channel
/// id is no longer in the table, and no other channel has been touched.
pub proof fn lemma_collected_channel_is_removed<P>(
    table: Map<usize, EntryView<P>>,
    peers: usize,
    id: usize,
    tag: TypeTag,
    workers: Seq<usize>,
)
    requires
        owed_to(table, peers, id, tag, workers),
    ensures
        after_all(table, id, tag, workers) == table.remove(id),
        !after_all(table, id, tag, workers).contains_key(id),
        table_wf(after_all(table, id, tag, workers), peers as nat),
    decreases workers.len(),
{
    lemma_first_served(table, peers, id, tag, workers);
    let next = after(table, id, tag, workers[0] as int);
    let rest = workers.drop_first();
    if workers.len() == 1 {
        assert(rest.len() == 0);
        assert(after_all(next, id, tag, rest) == next);
    } else {
        lemma_collected_channel_is_removed(next, peers, id, tag, rest);
        assert(next.remove(id) =~= table.remove(id));
    }
    assert(table_wf(table.remove(id), peers as nat));
}

/// A freshly installed channel owes every worker its share: the round of
/// requests above can start from it with the workers in any order.
pub proof fn lemma_fresh_channel_owes_everyone<P>(
    table: Map<usize, EntryView<P>>,
    peers: usize,
    id: usize,
    tag: TypeTag,
    payloads: Seq<P>,
    workers: Seq<usize>,
)
    requires
        table_wf(table, peers as nat),
        !table.contains_key(id),
        payloads.len() == peers,
        peers > 0,
        workers.no_duplicates(),
        forall|w: usize| w < peers <==> #[trigger] workers.contains(w),
    ensures
        owed_to(table.insert(id, fresh_entry(tag, payloads)), peers, id, tag, workers),
        forall|w: usize|
            w < peers ==> #[trigger] outcome(
                table.insert(id, fresh_entry(tag, payloads)),
                id,
                tag,
                w as int,
            ) == Ok::<P, CommError>(payloads[w as int]),
{
    let installed = table.insert(id, fresh_entry(tag, payloads));
    assert(installed[id].slots[0] is Some);
    assert(!drained(installed[id].slots));
    assert forall|other: usize| #[trigger] installed.contains_key(other) implies installed[other].slots.len()
        == peers && !drained(installed[other].slots) by {
        if other != id {
            assert(table.contains_key(other));
        }
    }
}

/// A channel id that has been collected by all can be installed again, for
/// any payload type: requests for the new type are served from the new
/// shares, and requests that still expect the old type are refused.
pub proof fn lemma_reuse_after_drain<P>(
    table: Map<usize, EntryView<P>>,
    peers: usize,
    id: usize,
    tag: TypeTag,
    workers: Seq<usize>,
    next_tag: TypeTag,
    payloads: Seq<P>,
    worker: usize,
)
    requires
        owed_to(table, peers, id, tag, workers),
        payloads.len() == peers,
        worker < peers,
    ensures
        !after_all(table, id, tag, workers).contains_key(id),
        ({
            let again = after_all(table, id, tag, workers).insert(id, fresh_entry(next_tag, payloads));
            &&& table_wf(again, peers as nat)
            &&& outcome(again, id, next_tag, worker as int) == Ok::<P, CommError>(
                payloads[worker as int],
            )
            &&& tag != next_tag ==> outcome(again, id, tag, worker as int) == Err::<P, CommError>(
                CommError::TypeMismatch,
            )
        }),
{
    lemma_collected_channel_is_removed(table, peers, id, tag, workers);
    let freed = after_all(table, id, tag, workers);
    let again = freed.insert(id, fresh_entry(next_tag, payloads));
    assert(again[id].slots[worker as int] is Some);
    assert(!drained(again[id].slots));
    assert forall|other: usize| #[trigger] again.contains_key(other) implies again[other].slots.len()
        == peers && !drained(again[other].slots) by {
        if other != id {
            assert(freed.contains_key(other));
        }
    }
}

/// A request that expects another payload type than the one a live channel
/// was built for is refused, and the table stays as it was: the shares of
/// the other workers are still there for them.
pub proof fn lemma_mismatch_leaves_table<P>(
    table: Map<usize, EntryView<P>>,
    id: usize,
    tag: TypeTag,
    worker: int,
)
    requires
        table.contains_key(id),
        table[id].tag != tag,
    ensures
        outcome(table, id, tag, worker) == Err::<P, CommError>(CommError::TypeMismatch),
        after(table, id, tag, worker) == table,
{
}

/// A worker that has been served and asks again while the channel is still
/// live is refused, and the table stays as it was.
pub proof fn lemma_second_request_is_refused<P>(
    table: Map<usize, EntryView<P>>,
    id: usize,
    tag: TypeTag,
    worker: int,
)
    requires
        table.contains_key(id),
        0 <= worker < table[id].slots.len(),
        outcome(table, id, tag, worker) is Ok,
        after(table, id, tag, worker).contains_key(id),
    ensures
        outcome(after(table, id, tag, worker), id, tag, worker) == Err::<P, CommError>(
            CommError::SlotAlreadyConsumed,
        ),
        after(after(table, id, tag, worker), id, tag, worker) == after(table, id, tag, worker),
{
}

} // verus!
