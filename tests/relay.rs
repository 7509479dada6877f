use anydns::handler::{EmptyHandler, HandlerOutcome};
use anydns::id_range::{calculate_id_range, IdRange};
use anydns::pending::{PendingQuery, PendingStore};
use anydns::wire::{read_id, with_id};
use anydns::worker::{make_workers, Step, Worker, WorkerState};
use anydns::Endpoint;
use simple_dns::rdata::{RData, A};
use simple_dns::{Name, Packet, Question, ResourceRecord, CLASS, QCLASS, QTYPE, TYPE};

fn resolver() -> Endpoint {
    Endpoint::v4(192, 168, 1, 1, 53)
}

fn client() -> Endpoint {
    Endpoint::v4(10, 0, 0, 7, 40000)
}

fn query_bytes(id: u16, name: &str) -> Vec<u8> {
    let mut q = Packet::new_query(id);
    q.questions.push(Question::new(
        Name::new_unchecked(name),
        QTYPE::TYPE(TYPE::A),
        QCLASS::CLASS(CLASS::IN),
        false,
    ));
    q.build_bytes_vec().unwrap()
}

fn entry(original_id: u16, inserted_at: u64) -> PendingQuery {
    PendingQuery { original_id, from: client(), query: query_bytes(original_id, "a.example"), inserted_at }
}

#[test]
fn id_range_single_worker_covers_whole_space() {
    assert_eq!(calculate_id_range(1, 0), IdRange { start: 0, end: 65535 });
}

#[test]
fn id_range_two_workers() {
    assert_eq!(calculate_id_range(2, 0), IdRange { start: 0, end: 32767 });
    assert_eq!(calculate_id_range(2, 1), IdRange { start: 32767, end: 65534 });
}

#[test]
fn id_range_last_of_most_workers() {
    assert_eq!(calculate_id_range(255, 0), IdRange { start: 0, end: 257 });
    assert_eq!(calculate_id_range(255, 254), IdRange { start: 65278, end: 65535 });
}

#[test]
fn id_ranges_pairwise_disjoint() {
    for n in [1u16, 2, 3, 7, 100, 254, 255] {
        let ranges: Vec<IdRange> = (0..n).map(|i| calculate_id_range(n, i)).collect();
        for (i, a) in ranges.iter().enumerate() {
            assert!(a.start < a.end);
            for b in ranges.iter().skip(i + 1) {
                assert!(a.end <= b.start || b.end <= a.start);
            }
        }
    }
}

#[test]
fn id_range_contains_is_half_open() {
    let r = calculate_id_range(2, 1);
    assert!(r.contains(32767));
    assert!(r.contains(65533));
    assert!(!r.contains(65534));
    assert!(!r.contains(32766));
}

#[test]
fn store_take_twice_gives_nothing() {
    let mut store = PendingStore::new();
    store.insert(5, entry(0x1234, 0));
    let first = store.take(5).unwrap();
    assert_eq!(first.original_id, 0x1234);
    assert!(store.take(5).is_none());
    assert!(!store.contains(5));
}

#[test]
fn store_insert_overwrites() {
    let mut store = PendingStore::new();
    store.insert(9, entry(1, 0));
    store.insert(9, entry(2, 0));
    assert_eq!(store.take(9).unwrap().original_id, 2);
    assert!(store.take(9).is_none());
}

#[test]
fn store_take_missing() {
    let mut store = PendingStore::new();
    assert!(store.take(0).is_none());
    assert!(store.take(65535).is_none());
}

#[test]
fn store_sweep_removes_only_stale() {
    let mut store = PendingStore::new();
    store.insert(1, entry(1, 0));
    store.insert(2, entry(2, 500));
    store.insert(3, entry(3, 900));
    store.sweep(1000, 500);
    assert!(!store.contains(1));
    assert!(store.contains(2));
    assert!(store.contains(3));
    assert!(store.take(1).is_none());
}

#[test]
fn sweep_then_late_reply_dropped() {
    let mut store = PendingStore::new();
    let mut w = Worker::new(1, 0, resolver());
    let q = query_bytes(0x4321, "late.example");
    let fwd = w.on_client_query(&mut store, client(), &q, HandlerOutcome::Fallback, 0).unwrap();
    let id = read_id(&fwd.bytes);
    store.sweep(20_000, 10_000);
    assert!(!store.contains(id));
    let mut reply = Packet::new_reply(id);
    reply.answers.push(ResourceRecord::new(Name::new_unchecked("late.example"), CLASS::IN, 60, RData::A(A { address: 1 })));
    let reply = reply.build_bytes_vec().unwrap();
    assert!(matches!(w.on_datagram(&mut store, resolver(), &reply), Step::Ignore));
}

#[test]
fn worker_counter_wraps_within_range() {
    let mut w = Worker::new(255, 1, resolver());
    assert_eq!(w.range(), IdRange { start: 257, end: 514 });
    for k in 0..257u16 {
        assert_eq!(w.next_id(), 257 + k);
    }
    assert_eq!(w.next_id(), 257);
    assert_eq!(w.next_id(), 258);
}

#[test]
fn worker_stop_then_check_stops() {
    let mut w = Worker::new(1, 0, resolver());
    assert!(w.keep_running());
    assert_eq!(w.state(), WorkerState::Running);
    w.stop();
    assert_eq!(w.state(), WorkerState::StopRequested);
    assert!(!w.keep_running());
    assert_eq!(w.state(), WorkerState::Stopped);
    w.stop();
    assert_eq!(w.state(), WorkerState::Stopped);
    assert!(!w.keep_running());
}

#[test]
fn answered_query_skips_store_and_upstream() {
    let mut store = PendingStore::new();
    let mut w = Worker::new(4, 2, resolver());
    let q = query_bytes(0x1234, "local.example");
    let answer = {
        let mut p = Packet::new_reply(0x9999);
        p.answers.push(ResourceRecord::new(Name::new_unchecked("local.example"), CLASS::IN, 60, RData::A(A { address: 0x7f000001 })));
        p.build_bytes_vec().unwrap()
    };
    let out = w.on_client_query(&mut store, client(), &q, HandlerOutcome::Answered(answer.clone()), 7).unwrap();
    assert_eq!(out.to, client());
    assert_eq!(read_id(&out.bytes), 0x1234);
    assert_eq!(&out.bytes[2..], &answer[2..]);
    for id in 0..=65535u16 {
        assert!(!store.contains(id));
    }
    assert_eq!(w.next_id(), calculate_id_range(4, 2).start);
}

#[test]
fn answered_with_short_packet_sends_nothing() {
    let mut store = PendingStore::new();
    let mut w = Worker::new(1, 0, resolver());
    let q = query_bytes(1, "x.example");
    assert!(w.on_client_query(&mut store, client(), &q, HandlerOutcome::Answered(vec![7]), 0).is_none());
}

#[test]
fn fallback_forwards_with_id_from_range() {
    let mut store = PendingStore::new();
    let mut w = Worker::new(3, 1, resolver());
    let range = w.range();
    let q = query_bytes(0x1234, "example.com");
    let out = w.on_client_query(&mut store, client(), &q, HandlerOutcome::Fallback, 42).unwrap();
    assert_eq!(out.to, resolver());
    let id = read_id(&out.bytes);
    assert!(range.contains(id));
    assert_eq!(id, range.start);
    assert_eq!(&out.bytes[2..], &q[2..]);
    assert!(store.contains(id));
    let e = store.take(id).unwrap();
    assert_eq!(e.original_id, 0x1234);
    assert_eq!(e.from, client());
    assert_eq!(e.query, q);
    assert_eq!(e.inserted_at, 42);
}

#[test]
fn client_datagram_goes_to_handler() {
    let mut store = PendingStore::new();
    let w = Worker::new(1, 0, resolver());
    let q = query_bytes(3, "example.com");
    assert!(matches!(w.on_datagram(&mut store, client(), &q), Step::Consult));
}

#[test]
fn malformed_datagram_ignored() {
    let mut store = PendingStore::new();
    let w = Worker::new(1, 0, resolver());
    assert!(matches!(w.on_datagram(&mut store, client(), &vec![1, 2, 3]), Step::Ignore));
    assert!(matches!(w.on_datagram(&mut store, resolver(), &vec![]), Step::Ignore));
}

#[test]
fn round_trip_restores_client_id_and_question() {
    let mut store = PendingStore::new();
    let mut w = Worker::new(2, 1, resolver());
    let q = query_bytes(0x1234, "example.com");
    assert!(matches!(w.on_datagram(&mut store, client(), &q), Step::Consult));
    let outcome = EmptyHandler::new().decide(&q);
    let fwd = w.on_client_query(&mut store, client(), &q, outcome, 1).unwrap();
    let fwd_id = read_id(&fwd.bytes);
    assert_ne!(fwd_id, 0x1234);

    let mut upstream = Packet::parse(&fwd.bytes).unwrap().into_reply();
    upstream.answers.push(ResourceRecord::new(
        Name::new_unchecked("example.com"),
        CLASS::IN,
        300,
        RData::A(A { address: 0x5db8d822 }),
    ));
    let upstream = upstream.build_bytes_vec().unwrap();

    let step = w.on_datagram(&mut store, resolver(), &upstream);
    let out = match step {
        Step::Send(o) => o,
        _ => panic!("expected a reply to the client"),
    };
    assert_eq!(out.to, client());
    let reply = Packet::parse(&out.bytes).unwrap();
    assert_eq!(reply.id(), 0x1234);
    assert_eq!(reply.questions.len(), 1);
    assert_eq!(reply.questions[0].qname.to_string(), "example.com");
    assert_eq!(reply.answers.len(), 1);
    match &reply.answers[0].rdata {
        RData::A(a) => assert_eq!(a.address, 0x5db8d822),
        _ => panic!("expected an A record"),
    }
    assert!(!store.contains(fwd_id));

    // A duplicate of the upstream reply finds nothing to complete.
    assert!(matches!(w.on_datagram(&mut store, resolver(), &upstream), Step::Ignore));
}

#[test]
fn upstream_reply_unknown_id_dropped() {
    let mut store = PendingStore::new();
    let w = Worker::new(1, 0, resolver());
    let reply = Packet::new_reply(77).build_bytes_vec().unwrap();
    assert!(w.on_upstream_reply(&mut store, &reply).is_none());
}

#[test]
fn empty_handler_falls_back() {
    assert!(matches!(EmptyHandler::new().decide(&vec![0, 1]), HandlerOutcome::Fallback));
}

#[test]
fn read_and_rewrite_id() {
    let b = vec![0x12, 0x34, 9, 8];
    assert_eq!(read_id(&b), 0x1234);
    assert_eq!(with_id(&b, 0xabcd), vec![0xab, 0xcd, 9, 8]);
    assert_eq!(with_id(&b, 1), vec![0, 1, 9, 8]);
}

#[test]
fn endpoint_v4_packs_octets() {
    let e = Endpoint::v4(192, 168, 1, 1, 53);
    assert_eq!(e.ip, 0xc0a80101);
    assert!(!e.v6);
    assert_eq!(e.port, 53);
}

#[test]
fn make_workers_assigns_ranges_in_order() {
    let ws = make_workers(3, resolver());
    assert_eq!(ws.len(), 3);
    for (i, w) in ws.iter().enumerate() {
        assert_eq!(w.range(), calculate_id_range(3, i as u16));
        assert_eq!(w.state(), WorkerState::Running);
    }
}
