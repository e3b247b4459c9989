use communication::{
    Allocation, CommError, Event, Process, ProcessBuilder, Thread, ThreadBuilder, Wait,
};
use std::time::Duration;

fn wire(peers: usize) -> Vec<Process<usize>> {
    let builders = Process::<usize>::new_vector(peers);
    for builder in builders.iter() {
        builder.announce(&(100 + builder.index())).unwrap();
    }
    builders.into_iter().map(|builder| builder.collect().unwrap()).collect()
}

fn granted<T>(allocation: Result<Allocation<T, usize>, CommError>) -> Allocation<T, usize> {
    match allocation {
        Ok(allocation) => allocation,
        Err(error) => panic!("allocation failed: {error:?}"),
    }
}

fn refusal<T>(allocation: Result<Allocation<T, usize>, CommError>) -> CommError {
    match allocation {
        Ok(_) => panic!("allocation succeeded"),
        Err(error) => error,
    }
}

#[test]
fn new_vector_makes_one_builder_per_worker() {
    for peers in 0..5 {
        let builders: Vec<ProcessBuilder<usize>> = Process::new_vector(peers);
        assert_eq!(builders.len(), peers);
        for (index, builder) in builders.iter().enumerate() {
            assert_eq!(builder.index(), index);
            assert_eq!(builder.peers(), peers);
        }
    }
}

#[test]
fn single_worker_builds_alone() {
    let mut builders = Process::<usize>::new_vector(1);
    let process = builders.pop().unwrap().build(77).unwrap();
    assert_eq!(process.index(), 0);
    assert_eq!(process.peers(), 1);
    assert_eq!(process.buzzers(), &vec![77]);
    assert!(process.events().is_empty());
}

#[test]
fn every_worker_holds_the_wake_handle_of_every_peer() {
    for peers in 1..5 {
        let processes = wire(peers);
        assert_eq!(processes.len(), peers);
        for (index, process) in processes.iter().enumerate() {
            assert_eq!(process.index(), index);
            assert_eq!(process.peers(), peers);
            let expected: Vec<usize> = (0..peers).map(|peer| 100 + peer).collect();
            assert_eq!(process.buzzers(), &expected);
        }
    }
}

#[test]
fn exchange_fails_when_a_peer_is_gone() {
    let mut builders = Process::<usize>::new_vector(2);
    let second = builders.pop().unwrap();
    let first = builders.pop().unwrap();
    drop(second);
    assert_eq!(first.announce(&1), Err(CommError::BuzzerExchangeFailed));
    assert!(matches!(first.build(1), Err(CommError::BuzzerExchangeFailed)));
}

#[test]
fn collect_fails_when_a_peer_never_announced() {
    let mut builders = Process::<usize>::new_vector(2);
    let second = builders.pop().unwrap();
    let first = builders.pop().unwrap();
    assert_eq!(first.announce(&1), Ok(()));
    drop(second);
    assert!(matches!(first.collect(), Err(CommError::BuzzerExchangeFailed)));
}

#[test]
fn each_worker_gets_a_producer_per_peer_and_one_consumer() {
    for peers in 1..5 {
        let mut processes = wire(peers);
        let mut allocations: Vec<Allocation<u32, usize>> = Vec::new();
        for process in processes.iter_mut() {
            let allocation = granted(process.allocate::<u32>(3));
            assert_eq!(allocation.pushers.len(), peers);
            assert_eq!(allocation.puller.identifier, 3);
            for (peer, bound) in allocation.pushers.iter().enumerate() {
                assert_eq!(bound.identifier, 3);
                assert_eq!(bound.buzzer, 100 + peer);
            }
            allocations.push(allocation);
        }
        for sender in 0..peers {
            for receiver in 0..peers {
                for round in 0..3u32 {
                    let value = (sender * 1000 + receiver * 10) as u32 + round;
                    let pusher = &mut allocations[sender].pushers[receiver].pusher;
                    assert_eq!(pusher.push(&mut Some(value)), Ok(()));
                }
            }
        }
        for receiver in 0..peers {
            for sender in 0..peers {
                for round in 0..3u32 {
                    let value = (sender * 1000 + receiver * 10) as u32 + round;
                    assert_eq!(*allocations[receiver].puller.puller.pull(), Some(value));
                }
            }
            assert_eq!(*allocations[receiver].puller.puller.pull(), None);
        }
    }
}

#[test]
fn channel_leaves_the_table_when_all_have_collected() {
    let mut processes = wire(3);
    assert_eq!(processes[0].is_live(4), Ok(false));
    let _a = granted(processes[1].allocate::<u8>(4));
    assert_eq!(processes[0].is_live(4), Ok(true));
    let _b = granted(processes[0].allocate::<u8>(4));
    assert_eq!(processes[2].is_live(4), Ok(true));
    let _c = granted(processes[2].allocate::<u8>(4));
    for process in processes.iter() {
        assert_eq!(process.is_live(4), Ok(false));
    }
}

#[test]
fn collected_id_can_be_allocated_for_another_type() {
    let mut processes = wire(2);
    let mut numbers: Vec<Allocation<i32, usize>> = Vec::new();
    for process in processes.iter_mut() {
        numbers.push(granted(process.allocate::<i32>(6)));
    }
    assert_eq!(processes[0].is_live(6), Ok(false));
    let mut texts: Vec<Allocation<String, usize>> = Vec::new();
    for process in processes.iter_mut() {
        texts.push(granted(process.allocate::<String>(6)));
    }
    assert_eq!(processes[0].constructions(), Ok(2));
    assert_eq!(numbers[0].pushers[1].pusher.push(&mut Some(-4)), Ok(()));
    assert_eq!(texts[0].pushers[1].pusher.push(&mut Some(String::from("four"))), Ok(()));
    assert_eq!(*numbers[1].puller.puller.pull(), Some(-4));
    assert_eq!(*texts[1].puller.puller.pull(), Some(String::from("four")));
    assert_eq!(*numbers[1].puller.puller.pull(), None);
    assert_eq!(*texts[1].puller.puller.pull(), None);
}

#[test]
fn live_id_with_another_type_is_a_mismatch() {
    let mut processes = wire(3);
    let mut first = granted(processes[0].allocate::<i32>(2));
    assert_eq!(refusal(processes[1].allocate::<i64>(2)), CommError::TypeMismatch);
    assert_eq!(refusal(processes[2].allocate::<String>(2)), CommError::TypeMismatch);
    assert_eq!(processes[0].is_live(2), Ok(true));
    let mut second = granted(processes[1].allocate::<i32>(2));
    let mut third = granted(processes[2].allocate::<i32>(2));
    assert_eq!(processes[0].is_live(2), Ok(false));
    assert_eq!(first.pushers[1].pusher.push(&mut Some(1)), Ok(()));
    assert_eq!(first.pushers[2].pusher.push(&mut Some(2)), Ok(()));
    assert_eq!(*second.puller.puller.pull(), Some(1));
    assert_eq!(*third.puller.puller.pull(), Some(2));
    assert_eq!(*first.puller.puller.pull(), None);
}

#[test]
fn second_allocation_by_the_same_worker_fails() {
    let mut processes = wire(2);
    let _first = granted(processes[0].allocate::<i32>(1));
    assert_eq!(refusal(processes[0].allocate::<i32>(1)), CommError::SlotAlreadyConsumed);
    assert_eq!(processes[1].is_live(1), Ok(true));
    let _second = granted(processes[1].allocate::<i32>(1));
    assert_eq!(processes[1].is_live(1), Ok(false));
}

#[test]
fn lone_worker_may_allocate_an_id_again() {
    let mut processes = wire(1);
    let mut first = granted(processes[0].allocate::<i32>(1));
    let mut second = granted(processes[0].allocate::<i32>(1));
    assert_eq!(processes[0].constructions(), Ok(2));
    assert_eq!(first.pushers[0].pusher.push(&mut Some(10)), Ok(()));
    assert_eq!(*second.puller.puller.pull(), None);
    assert_eq!(*first.puller.puller.pull(), Some(10));
}

#[test]
fn channel_is_built_once_for_three_workers() {
    let mut processes = wire(3);
    assert_eq!(processes[0].constructions(), Ok(0));
    let mut allocations: Vec<Allocation<String, usize>> = Vec::new();
    for process in processes.iter_mut() {
        allocations.push(granted(process.allocate::<String>(5)));
        assert_eq!(process.constructions(), Ok(1));
    }
    assert_eq!(processes[2].constructions(), Ok(1));
    let mut message = Some(String::from("from the last to the first"));
    assert_eq!(allocations[2].pushers[0].pusher.push(&mut message), Ok(()));
    assert_eq!(
        *allocations[0].puller.puller.pull(),
        Some(String::from("from the last to the first"))
    );
}

#[test]
fn two_workers_exchange_a_number() {
    let mut processes = wire(2);
    let mut zero = granted(processes[0].allocate::<i32>(7));
    let mut one = granted(processes[1].allocate::<i32>(7));
    assert_eq!(zero.pushers.len(), 2);
    assert_eq!(one.pushers.len(), 2);
    assert_eq!(zero.pushers[1].pusher.push(&mut Some(42)), Ok(()));
    assert_eq!(*one.puller.puller.pull(), Some(42));
    assert_eq!(*one.puller.puller.pull(), None);
    for _ in 0..10 {
        assert_eq!(*zero.puller.puller.pull(), None);
    }
}

#[test]
fn receive_moves_counter_reports_to_the_event_queue() {
    let mut processes = wire(2);
    let zero = granted(processes[0].allocate::<i32>(7));
    let one = granted(processes[1].allocate::<i32>(7));
    processes[1].receive();
    assert!(processes[1].events().is_empty());
    zero.pushers[1].counter.send((7, Event::Pushed(1))).unwrap();
    one.pushers[1].counter.send((7, Event::Pushed(2))).unwrap();
    zero.pushers[1].counter.send((7, Event::Pushed(3))).unwrap();
    zero.pushers[0].counter.send((7, Event::Pushed(9))).unwrap();
    processes[1].receive();
    let queued: Vec<(usize, Event)> = processes[1].events().iter().cloned().collect();
    assert_eq!(
        queued,
        vec![(7, Event::Pushed(1)), (7, Event::Pushed(2)), (7, Event::Pushed(3))]
    );
    processes[1].receive();
    assert_eq!(processes[1].events().len(), 3);
    processes[0].receive();
    let queued: Vec<(usize, Event)> = processes[0].events().iter().cloned().collect();
    assert_eq!(queued, vec![(7, Event::Pushed(9))]);
}

#[test]
fn receive_keeps_what_was_queued_before() {
    let mut processes = wire(1);
    let own = granted(processes[0].allocate::<i32>(0));
    processes[0].inner().record(0, Event::Pulled(4));
    own.pushers[0].counter.send((0, Event::Pushed(5))).unwrap();
    processes[0].receive();
    let queued: Vec<(usize, Event)> = processes[0].events().iter().cloned().collect();
    assert_eq!(queued, vec![(0, Event::Pulled(4)), (0, Event::Pushed(5))]);
    assert_eq!(processes[0].inner().next_event(), Some((0, Event::Pulled(4))));
    assert_eq!(processes[0].inner().next_event(), Some((0, Event::Pushed(5))));
    assert_eq!(processes[0].inner().next_event(), None);
}

#[test]
fn worker_waits_only_without_events() {
    let mut processes = wire(1);
    assert!(matches!(processes[0].await_events(None), Wait::UntilWoken));
    let limit = Duration::from_millis(250);
    match processes[0].await_events(Some(limit)) {
        Wait::AtMost(given) => assert_eq!(given, limit),
        _ => panic!("expected a bounded wait"),
    }
    processes[0].inner().record(3, Event::Pushed(1));
    assert!(matches!(processes[0].await_events(None), Wait::Ready));
    assert!(matches!(processes[0].await_events(Some(limit)), Wait::Ready));
}

#[test]
fn single_thread_allocator_is_worker_zero_of_one() {
    let mut thread: Thread = ThreadBuilder {}.build();
    assert_eq!(thread.index(), 0);
    assert_eq!(thread.peers(), 1);
    assert_eq!(thread.pending(), 0);
    assert!(matches!(thread.await_events(None), Wait::UntilWoken));
    assert!(!thread.absorb(Err(std::sync::mpsc::TryRecvError::Empty)));
    assert_eq!(thread.pending(), 0);
    assert!(thread.absorb(Ok((2, Event::Pulled(6)))));
    thread.record(1, Event::Pushed(1));
    assert_eq!(thread.pending(), 2);
    assert!(matches!(thread.await_events(None), Wait::Ready));
    assert_eq!(thread.next_event(), Some((2, Event::Pulled(6))));
    assert_eq!(thread.next_event(), Some((1, Event::Pushed(1))));
    assert_eq!(thread.next_event(), None);
}

#[test]
fn assembled_allocator_holds_the_given_wake_handles() {
    let mut builders = Process::<usize>::new_vector(3);
    let builder = builders.remove(1);
    let process = builder.assemble(vec![5, 6, 7]);
    assert_eq!(process.index(), 1);
    assert_eq!(process.peers(), 3);
    assert_eq!(process.buzzers(), &vec![5, 6, 7]);
    assert!(process.events().is_empty());
}
