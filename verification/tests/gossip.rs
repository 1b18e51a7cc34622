use maelstrom_challenge::algorithms::gossip::{sample_count, Broadcast};
use maelstrom_challenge::rpc::gossip::{
    BroadcastMsgIn, BroadcastMsgRequestBody, BroadcastMsgResponseBody, BroadcastReceivedOkMsg,
    BroadcastRequestMsg, ReadRequestMsg, TopologyRequestMsg,
};
use maelstrom_challenge::node::Event;
use maelstrom_challenge::rpc::{InitMsgIn, InitRequestMsg};
use rand::rngs::StdRng;
use rand::SeedableRng;

fn s(text: &str) -> String {
    text.to_string()
}

fn init_msg() -> InitMsgIn {
    InitMsgIn {
        src: s("c1"),
        dest: s("n1"),
        body: InitRequestMsg::new(1, s("n1"), vec![s("n1"), s("n2"), s("n3")]),
    }
}

fn node_n1() -> Broadcast {
    let mut node = Broadcast::new(1);
    node.on_init(init_msg());
    node
}

fn broadcast_msg(value: u64, msg_id: u64) -> BroadcastMsgIn {
    BroadcastMsgIn::new_broadcast(s("c1"), s("n1"), value, Some(msg_id))
}

fn ack(from: &str, version: Option<u64>) -> BroadcastMsgIn {
    BroadcastMsgIn {
        src: s(from),
        dest: s("n1"),
        body: BroadcastMsgRequestBody::BroadcastOk(BroadcastReceivedOkMsg {
            in_reply_to: version,
            msg_id: 0,
        }),
    }
}

fn topology(entries: Vec<(&str, Vec<&str>)>) -> Vec<(String, Vec<String>)> {
    entries
        .into_iter()
        .map(|(node, peers)| (s(node), peers.into_iter().map(s).collect()))
        .collect()
}

#[test]
fn init_is_answered_with_init_ok() {
    let mut node = Broadcast::new(1);
    assert_eq!(node.node_id(), "n0");
    let out = node.on_init(init_msg());
    assert_eq!(out.src, "n1");
    assert_eq!(out.dest, "c1");
    assert_eq!(out.body.in_reply_to, Some(1));
    assert_eq!(node.node_id(), "n1");
}

#[test]
fn broadcast_then_read() {
    let mut node = node_n1();
    let reply = node.handle(broadcast_msg(42, 5)).expect("a broadcast is acknowledged");
    assert_eq!(reply.src, "n1");
    assert_eq!(reply.dest, "c1");
    match reply.body {
        BroadcastMsgResponseBody::Broadcast(ok) => {
            assert_eq!(ok.in_reply_to, Some(5));
            assert_eq!(ok.msg_id, 2);
        }
        other => panic!("not a broadcast_ok: {:?}", other),
    }
    let read = BroadcastMsgIn {
        src: s("c1"),
        dest: s("n1"),
        body: BroadcastMsgRequestBody::Read(ReadRequestMsg { msg_id: Some(6) }),
    };
    let reply = node.handle(read).expect("a read is answered");
    assert_eq!(reply.src, "n1");
    assert_eq!(reply.dest, "c1");
    match reply.body {
        BroadcastMsgResponseBody::Read(ok) => {
            assert_eq!(ok.in_reply_to, Some(6));
            assert_eq!(ok.msg_id, 3);
            assert_eq!(ok.messages, vec![42]);
            assert_eq!(ok.messages.iter().filter(|v| **v == 42).count(), 1);
        }
        other => panic!("not a read_ok: {:?}", other),
    }
}

#[test]
fn same_value_is_logged_once() {
    let mut node = node_n1();
    for id in 0..5 {
        let reply = node.handle(broadcast_msg(42, id));
        assert!(reply.is_some());
    }
    assert_eq!(node.values(), &vec![42]);
    node.handle(broadcast_msg(7, 9));
    node.handle(broadcast_msg(42, 10));
    node.handle(broadcast_msg(7, 11));
    assert_eq!(node.values(), &vec![42, 7]);
}

#[test]
fn handle_broadcast_returns_nothing() {
    let mut node = node_n1();
    let out = node.handle_broadcast("c1", &BroadcastRequestMsg::new(3, None));
    assert_eq!(out, None);
    assert_eq!(node.values(), &vec![3]);
}

#[test]
fn read_of_empty_log_is_empty() {
    let mut node = node_n1();
    let out = node.handle_read(&ReadRequestMsg { msg_id: None });
    assert_eq!(out, Some(vec![]));
}

#[test]
fn topology_churn_prunes_cursors() {
    let mut node = node_n1();
    node.apply_topology(topology(vec![("n1", vec!["n2", "n3"])]));
    assert_eq!(node.cursor_count(), 2);
    assert_eq!(node.cursor(&s("n2")), Some(0));
    assert_eq!(node.cursor(&s("n3")), Some(0));
    node.apply_topology(topology(vec![("n1", vec!["n2"])]));
    assert_eq!(node.cursor_count(), 1);
    assert_eq!(node.cursor(&s("n2")), Some(0));
    assert_eq!(node.cursor(&s("n3")), None);
    assert_eq!(node.peers(), &vec![s("n2")]);
}

#[test]
fn topology_keeps_cursors_of_known_peers() {
    let mut node = node_n1();
    node.apply_topology(topology(vec![("n1", vec!["n2", "n3"])]));
    node.handle(ack("n2", Some(4)));
    node.apply_topology(topology(vec![("n1", vec!["n4", "n2"]), ("n4", vec!["n1", "n2"])]));
    assert_eq!(node.cursor(&s("n2")), Some(4));
    assert_eq!(node.cursor(&s("n4")), Some(0));
    assert_eq!(node.cursor(&s("n3")), None);
    assert_eq!(node.cursor(&s("n1")), None);
    assert_eq!(node.cursor_count(), 2);
    assert_eq!(node.peers(), &vec![s("n4"), s("n2")]);
}

#[test]
fn topology_message_gets_no_reply() {
    let mut node = node_n1();
    let msg = BroadcastMsgIn {
        src: s("c1"),
        dest: s("n1"),
        body: BroadcastMsgRequestBody::Topology(TopologyRequestMsg {
            msg_id: Some(2),
            topology: topology(vec![("n1", vec!["n2", "n3"]), ("n2", vec!["n1"])]),
        }),
    };
    assert!(node.handle(msg).is_none());
    assert_eq!(node.peers(), &vec![s("n2"), s("n3")]);
    assert_eq!(node.topology().len(), 2);
    assert_eq!(node.topology()[0].0, "n1");
    assert_eq!(node.topology()[1].1, vec![s("n1")]);
    assert_eq!(node.last_msg_id(), 2);
}

#[test]
fn empty_topology_leaves_no_peer() {
    let mut node = node_n1();
    node.apply_topology(topology(vec![("n1", vec!["n2"])]));
    node.apply_topology(topology(vec![]));
    assert_eq!(node.cursor_count(), 0);
    assert!(node.peers().is_empty());
}

#[test]
fn cursor_never_moves_back() {
    let mut node = node_n1();
    node.apply_topology(topology(vec![("n1", vec!["n2", "n3"])]));
    assert!(node.handle(ack("n2", Some(3))).is_none());
    assert_eq!(node.cursor(&s("n2")), Some(3));
    node.handle(ack("n2", Some(1)));
    assert_eq!(node.cursor(&s("n2")), Some(3));
    node.handle(ack("n2", None));
    assert_eq!(node.cursor(&s("n2")), Some(3));
    node.handle(ack("n2", Some(8)));
    assert_eq!(node.cursor(&s("n2")), Some(8));
    assert_eq!(node.cursor(&s("n3")), Some(0));
}

#[test]
fn ack_of_a_stranger_adds_no_cursor() {
    let mut node = node_n1();
    node.apply_topology(topology(vec![("n1", vec!["n2"])]));
    node.handle(ack("n9", Some(3)));
    assert_eq!(node.cursor(&s("n9")), None);
    assert_eq!(node.cursor_count(), 1);
}

#[test]
fn sample_count_is_half_rounded_up_and_one() {
    assert_eq!(sample_count(0), 1);
    assert_eq!(sample_count(1), 2);
    assert_eq!(sample_count(2), 2);
    assert_eq!(sample_count(3), 3);
    assert_eq!(sample_count(4), 3);
    assert_eq!(sample_count(5), 4);
    assert_eq!(sample_count(10), 6);
}

#[test]
fn sample_has_the_stated_size() {
    let expected = [0usize, 1, 2, 3, 3, 4, 4, 5, 5, 6, 6];
    for n in 0..=10usize {
        let mut node = node_n1();
        let names: Vec<String> = (0..n).map(|i| format!("p{}", i)).collect();
        node.apply_topology(vec![(s("n1"), names)]);
        for seed in 0..20u64 {
            let mut rng = StdRng::seed_from_u64(seed);
            let sample = node.sample_peers(&mut rng);
            assert_eq!(sample.len(), expected[n]);
            assert_eq!(sample.len(), n.min((n + 1) / 2 + 1));
            let mut seen = sample.clone();
            seen.sort();
            seen.dedup();
            assert_eq!(seen.len(), sample.len());
            assert!(sample.iter().all(|i| *i < n));
        }
    }
}

#[test]
fn sample_depends_on_the_seed_alone() {
    let mut node = node_n1();
    let names: Vec<String> = (0..9).map(|i| format!("p{}", i)).collect();
    node.apply_topology(vec![(s("n1"), names)]);
    let first = node.sample_peers(&mut StdRng::seed_from_u64(11));
    let second = node.sample_peers(&mut StdRng::seed_from_u64(11));
    assert_eq!(first, second);
}

#[test]
fn tick_sends_the_value_at_the_cursor() {
    let mut node = node_n1();
    node.apply_topology(topology(vec![("n1", vec!["n2"])]));
    node.handle(broadcast_msg(10, 1));
    node.handle(broadcast_msg(20, 2));
    node.handle(broadcast_msg(30, 3));
    let mut rng = StdRng::seed_from_u64(1);
    let msgs = node.handle_tick(&mut rng);
    assert_eq!(msgs.len(), 1);
    assert_eq!(msgs[0].src, "n1");
    assert_eq!(msgs[0].dest, "n2");
    match &msgs[0].body {
        BroadcastMsgRequestBody::Broadcast(b) => {
            assert_eq!(b.message, 10);
            assert_eq!(b.msg_id, Some(0));
        }
        other => panic!("not a broadcast: {:?}", other),
    }
    node.handle(ack("n2", Some(1)));
    let msgs = node.handle_tick(&mut rng);
    assert_eq!(msgs.len(), 1);
    match &msgs[0].body {
        BroadcastMsgRequestBody::Broadcast(b) => {
            assert_eq!(b.message, 20);
            assert_eq!(b.msg_id, Some(1));
        }
        other => panic!("not a broadcast: {:?}", other),
    }
    node.handle(ack("n2", Some(2)));
    assert!(node.handle_tick(&mut rng).is_empty());
    node.handle(ack("n2", Some(50)));
    assert!(node.handle_tick(&mut rng).is_empty());
}

#[test]
fn tick_with_empty_log_sends_nothing() {
    let mut node = node_n1();
    node.apply_topology(topology(vec![("n1", vec!["n2", "n3"])]));
    let mut rng = StdRng::seed_from_u64(3);
    assert!(node.handle_tick(&mut rng).is_empty());
    node.handle(broadcast_msg(10, 1));
    assert!(node.build_broadcast_messages(&mut rng).is_empty());
}

#[test]
fn tick_without_peers_sends_nothing() {
    let mut node = node_n1();
    node.handle(broadcast_msg(10, 1));
    node.handle(broadcast_msg(20, 2));
    let mut rng = StdRng::seed_from_u64(3);
    assert!(node.handle_tick(&mut rng).is_empty());
}

#[test]
fn messages_for_a_given_sample() {
    let mut node = node_n1();
    node.apply_topology(topology(vec![("n1", vec!["n2", "n3", "n4"])]));
    for (id, value) in [5u64, 6, 7, 8].iter().enumerate() {
        node.handle(broadcast_msg(*value, id as u64));
    }
    node.handle(ack("n3", Some(2)));
    node.handle(ack("n4", Some(3)));
    let msgs = node.messages_for_sample(&vec![2, 1, 0]);
    assert_eq!(msgs.len(), 2);
    assert_eq!(msgs[0].dest, "n3");
    assert_eq!(msgs[1].dest, "n2");
    match (&msgs[0].body, &msgs[1].body) {
        (BroadcastMsgRequestBody::Broadcast(a), BroadcastMsgRequestBody::Broadcast(b)) => {
            assert_eq!((a.message, a.msg_id), (7, Some(2)));
            assert_eq!((b.message, b.msg_id), (5, Some(0)));
        }
        other => panic!("not broadcasts: {:?}", other),
    }
    assert!(node.messages_for_sample(&vec![]).is_empty());
}

#[test]
fn topology_and_ack_have_no_reply() {
    let msg = BroadcastMsgIn {
        src: s("c1"),
        dest: s("n1"),
        body: BroadcastMsgRequestBody::Topology(TopologyRequestMsg {
            msg_id: Some(4),
            topology: vec![],
        }),
    };
    assert!(msg.into_response(None, 9).is_none());
    assert!(ack("n2", Some(1)).into_response(Some(vec![1]), 3).is_none());
}

#[test]
fn broadcast_and_read_have_one_reply() {
    let out = broadcast_msg(8, 4).into_response(None, 9).expect("a broadcast_ok");
    assert_eq!(out.src, "n1");
    assert_eq!(out.dest, "c1");
    match out.body {
        BroadcastMsgResponseBody::Broadcast(ok) => {
            assert_eq!(ok.in_reply_to, Some(4));
            assert_eq!(ok.msg_id, 9);
        }
        other => panic!("not a broadcast_ok: {:?}", other),
    }
}

#[test]
fn init_after_topology_keeps_the_node_out_of_its_peers() {
    let mut node = Broadcast::new(1);
    node.apply_topology(topology(vec![("n1", vec!["n2", "n3"]), ("n2", vec!["n1", "n3"])]));
    assert_eq!(node.peers(), &vec![s("n2"), s("n3"), s("n1")]);
    node.handle(ack("n2", Some(3)));
    node.handle(ack("n3", Some(2)));
    node.on_init(init_msg());
    assert_eq!(node.node_id(), "n1");
    assert_eq!(node.peers(), &vec![s("n2"), s("n3")]);
    assert_eq!(node.cursor(&s("n1")), None);
    assert_eq!(node.cursor(&s("n2")), Some(3));
    assert_eq!(node.cursor(&s("n3")), Some(2));
    assert_eq!(node.cursor_count(), 2);
}

#[test]
fn tick_sends_to_no_peer_twice_and_never_to_itself() {
    let mut node = node_n1();
    let names: Vec<String> = (2..9).map(|i| format!("n{}", i)).collect();
    node.apply_topology(vec![(s("n1"), names.clone()), (s("n2"), vec![s("n1"), s("n3")])]);
    node.handle(broadcast_msg(10, 1));
    node.handle(broadcast_msg(20, 2));
    for seed in 0..20u64 {
        let mut rng = StdRng::seed_from_u64(seed);
        let msgs = node.build_broadcast_messages(&mut rng);
        assert_eq!(msgs.len(), 5);
        let mut dests: Vec<&String> = msgs.iter().map(|m| &m.dest).collect();
        dests.sort();
        dests.dedup();
        assert_eq!(dests.len(), msgs.len());
        for m in msgs.iter() {
            assert_eq!(m.src, "n1");
            assert_ne!(m.dest, "n1");
            assert!(names.contains(&m.dest));
        }
    }
}

#[test]
fn set_value_fills_a_read_ok_only() {
    let read = BroadcastMsgIn {
        src: s("c1"),
        dest: s("n1"),
        body: BroadcastMsgRequestBody::Read(ReadRequestMsg { msg_id: Some(1) }),
    };
    let mut out = read.into_response(None, 2).expect("a read_ok");
    match &out.body {
        BroadcastMsgResponseBody::Read(r) => assert!(r.messages.is_empty()),
        other => panic!("not a read_ok: {:?}", other),
    }
    out.body.set_value(Some(vec![1, 2]));
    match &out.body {
        BroadcastMsgResponseBody::Read(r) => assert_eq!(r.messages, vec![1, 2]),
        other => panic!("not a read_ok: {:?}", other),
    }
    out.body.set_value(None);
    match &out.body {
        BroadcastMsgResponseBody::Read(r) => assert!(r.messages.is_empty()),
        other => panic!("not a read_ok: {:?}", other),
    }
    let mut ok = broadcast_msg(1, 2).into_response(Some(vec![5]), 3).expect("a broadcast_ok");
    ok.body.set_value(Some(vec![9]));
    match ok.body {
        BroadcastMsgResponseBody::Broadcast(b) => {
            assert_eq!(b.in_reply_to, Some(2));
            assert_eq!(b.msg_id, 3);
        }
        other => panic!("not a broadcast_ok: {:?}", other),
    }
}

#[test]
fn step_dispatches_each_command() {
    let mut node = Broadcast::new(1);
    let mut rng = StdRng::seed_from_u64(5);
    let outcome = node.step(Event::Init(init_msg()), &mut rng);
    let init_ok = outcome.init_ok.expect("an init_ok");
    assert_eq!(init_ok.src, "n1");
    assert_eq!(init_ok.dest, "c1");
    assert_eq!(init_ok.body.in_reply_to, Some(1));
    assert!(outcome.reply.is_none() && outcome.outbound.is_empty() && !outcome.stop);
    assert_eq!(node.node_ids(), &vec![s("n1"), s("n2"), s("n3")]);

    let outcome = node.step(Event::TopologyOverride(topology(vec![("n1", vec!["n2"])])), &mut rng);
    assert!(outcome.init_ok.is_none() && outcome.reply.is_none());
    assert!(outcome.outbound.is_empty() && !outcome.stop);
    assert_eq!(node.cursor(&s("n2")), Some(0));

    let outcome = node.step(Event::Message(broadcast_msg(1, 10)), &mut rng);
    assert!(outcome.reply.is_some() && outcome.outbound.is_empty() && !outcome.stop);
    let outcome = node.step(Event::Message(broadcast_msg(2, 11)), &mut rng);
    assert!(outcome.reply.is_some());
    let outcome = node.step(Event::Message(ack("n2", Some(0))), &mut rng);
    assert!(outcome.reply.is_none());

    let outcome = node.step(Event::Tick, &mut rng);
    assert!(outcome.init_ok.is_none() && outcome.reply.is_none() && !outcome.stop);
    assert_eq!(outcome.outbound.len(), 1);
    assert_eq!(outcome.outbound[0].dest, "n2");

    let outcome = node.step(Event::Shutdown, &mut rng);
    assert!(outcome.stop);
    assert!(outcome.init_ok.is_none() && outcome.reply.is_none() && outcome.outbound.is_empty());
    assert_eq!(node.values(), &vec![1, 2]);
}
