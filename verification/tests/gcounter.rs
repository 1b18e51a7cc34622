use maelstrom_challenge::algorithms::gcounter::GCounter;
use maelstrom_challenge::rpc::gcounter::{
    AddRequestMsg, GCounterMessage, GCounterMessageBody, ReadResponseMsg,
};
use maelstrom_challenge::node::Event;
use maelstrom_challenge::rpc::{InitMsgIn, InitRequestMsg};

fn s(text: &str) -> String {
    text.to_string()
}

fn counter_n1() -> GCounter {
    let mut node = GCounter::new(1);
    let out = node.on_init(InitMsgIn {
        src: s("c1"),
        dest: s("n1"),
        body: InitRequestMsg::new(1, s("n1"), vec![s("n1"), s("n2"), s("n3")]),
    });
    assert_eq!(out.src, "n1");
    assert_eq!(out.dest, "c1");
    assert_eq!(out.body.in_reply_to, Some(1));
    node
}

fn msg(from: &str, body: GCounterMessageBody) -> GCounterMessage {
    GCounterMessage { src: s(from), dest: s("n1"), body }
}

#[test]
fn counter_adds_and_merges() {
    let mut node = counter_n1();
    node.handle_add(5);
    node.handle_add(3);
    assert_eq!(node.handle_read(), Some(8));
    assert_eq!(node.handle_read_ok(10), None);
    assert_eq!(node.handle_read(), Some(10));
    assert_eq!(node.internal_current(), 8);
    assert_eq!(node.cluster_max(), 10);
}

#[test]
fn counter_through_messages() {
    let mut node = counter_n1();
    let reply = node
        .handle(msg("c1", GCounterMessageBody::Add(AddRequestMsg { msg_id: Some(2), delta: 5 })))
        .expect("an add is acknowledged");
    assert_eq!(reply.src, "n1");
    assert_eq!(reply.dest, "c1");
    match reply.body {
        GCounterMessageBody::AddOk(ok) => {
            assert_eq!(ok.in_reply_to, Some(2));
            assert_eq!(ok.msg_id, 1);
        }
        other => panic!("not an add_ok: {:?}", other),
    }
    assert_eq!(node.internal_current(), 5);
    assert_eq!(node.cluster_max(), 0);
    node.handle(msg("c1", GCounterMessageBody::Add(AddRequestMsg { msg_id: Some(3), delta: 3 })));
    let reply = node.handle(msg("c1", GCounterMessageBody::Read)).expect("a read is answered");
    match reply.body {
        GCounterMessageBody::ReadOk(r) => assert_eq!(r.value, 8),
        other => panic!("not a read_ok: {:?}", other),
    }
    let reply = node.handle(msg("n2", GCounterMessageBody::ReadOk(ReadResponseMsg { value: 10 })));
    assert!(reply.is_none());
    let reply = node.handle(msg("c1", GCounterMessageBody::Read)).expect("a read is answered");
    match reply.body {
        GCounterMessageBody::ReadOk(r) => assert_eq!(r.value, 10),
        other => panic!("not a read_ok: {:?}", other),
    }
    assert_eq!(node.last_msg_id(), 5);
}

#[test]
fn add_beyond_the_largest_number_stays_there() {
    let mut node = counter_n1();
    assert_eq!(node.handle_add(u64::MAX - 3), None);
    assert_eq!(node.internal_current(), u64::MAX - 3);
    node.handle_add(3);
    assert_eq!(node.internal_current(), u64::MAX);
    node.handle_add(1);
    assert_eq!(node.internal_current(), u64::MAX);
    let reply = node
        .handle(msg("c1", GCounterMessageBody::Add(AddRequestMsg { msg_id: Some(9), delta: u64::MAX })))
        .expect("an add is acknowledged");
    assert!(matches!(reply.body, GCounterMessageBody::AddOk(_)));
    assert_eq!(node.internal_current(), u64::MAX);
    assert_eq!(node.handle_read(), Some(u64::MAX));
    let mut other = counter_n1();
    other.handle_add(7);
    other.handle_add(u64::MAX - 6);
    assert_eq!(other.internal_current(), u64::MAX);
}

#[test]
fn counter_init_after_topology_keeps_the_node_out_of_its_peers() {
    let mut node = GCounter::new(1);
    node.apply_topology(vec![(s("n1"), vec![s("n2")]), (s("n2"), vec![s("n1"), s("n3")])]);
    assert_eq!(node.peers(), &vec![s("n2"), s("n1"), s("n3")]);
    node.on_init(InitMsgIn {
        src: s("c1"),
        dest: s("n1"),
        body: InitRequestMsg::new(1, s("n1"), vec![s("n1"), s("n2"), s("n3")]),
    });
    assert_eq!(node.peers(), &vec![s("n2"), s("n3")]);
    let msgs = node.handle_tick();
    assert_eq!(msgs.len(), 2);
    assert!(msgs.iter().all(|m| m.dest != "n1" && m.src == "n1"));
}

#[test]
fn counts_never_fall() {
    let mut node = counter_n1();
    let mut last_read = 0;
    let steps: [(bool, u64); 8] =
        [(true, 4), (false, 2), (false, 9), (true, 0), (false, 3), (true, 7), (false, 9), (true, 1)];
    for (is_add, amount) in steps {
        let internal = node.internal_current();
        let cluster = node.cluster_max();
        if is_add {
            node.handle_add(amount);
        } else {
            node.handle_read_ok(amount);
        }
        assert!(node.internal_current() >= internal);
        assert!(node.cluster_max() >= cluster);
        let read = node.handle_read().expect("a read has a value");
        assert!(read >= last_read);
        last_read = read;
    }
    assert_eq!(node.internal_current(), 12);
    assert_eq!(node.cluster_max(), 9);
    assert_eq!(last_read, 12);
}

#[test]
fn merge_is_idempotent_and_commutative() {
    let mut a = counter_n1();
    a.handle_read_ok(4);
    a.handle_read_ok(9);
    a.handle_read_ok(9);
    let mut b = counter_n1();
    b.handle_read_ok(9);
    b.handle_read_ok(4);
    assert_eq!(a.cluster_max(), 9);
    assert_eq!(b.cluster_max(), 9);
}

#[test]
fn replies_are_not_answered() {
    let mut node = counter_n1();
    assert_eq!(node.handle_add_ok(), None);
    let peer_ack = msg(
        "n2",
        GCounterMessageBody::AddOk(maelstrom_challenge::rpc::gcounter::AddResponseMsg {
            msg_id: 1,
            in_reply_to: Some(1),
        }),
    );
    assert!(node.handle(peer_ack).is_none());
    assert!(node.handle(msg("n2", GCounterMessageBody::NoOp)).is_none());
    assert_eq!(node.internal_current(), 0);
    assert_eq!(node.cluster_max(), 0);
}

#[test]
fn counter_tick_asks_every_peer() {
    let mut node = counter_n1();
    assert!(node.handle_tick().is_empty());
    node.apply_topology(vec![
        (s("n1"), vec![s("n2"), s("n3")]),
        (s("n2"), vec![s("n1"), s("n3"), s("n4")]),
    ]);
    assert_eq!(node.peers(), &vec![s("n2"), s("n3"), s("n4")]);
    let msgs = node.handle_tick();
    assert_eq!(msgs.len(), 3);
    for (m, peer) in msgs.iter().zip(["n2", "n3", "n4"]) {
        assert_eq!(m.src, "n1");
        assert_eq!(m.dest, peer);
        assert!(matches!(m.body, GCounterMessageBody::Read));
    }
    let msgs = node.build_read_all_messages();
    assert_eq!(msgs.len(), 3);
}

#[test]
fn new_read_and_its_reply() {
    let read = GCounterMessage::new_read(s("n1"), s("n2"));
    assert_eq!(read.src, "n1");
    assert_eq!(read.dest, "n2");
    let reply = read.into_response(17, 4).expect("a read is answered");
    assert_eq!(reply.src, "n2");
    assert_eq!(reply.dest, "n1");
    match reply.body {
        GCounterMessageBody::ReadOk(r) => assert_eq!(r.value, 17),
        other => panic!("not a read_ok: {:?}", other),
    }
    assert!(reply.into_response(1, 5).is_none());
}

#[test]
fn counter_step_dispatches_each_command() {
    let mut node = GCounter::new(1);
    let outcome = node.step(Event::Init(InitMsgIn {
        src: s("c1"),
        dest: s("n1"),
        body: InitRequestMsg::new(1, s("n1"), vec![s("n1"), s("n2")]),
    }));
    assert_eq!(outcome.init_ok.expect("an init_ok").body.in_reply_to, Some(1));
    assert_eq!(node.node_id(), "n1");
    assert_eq!(node.node_ids(), &vec![s("n1"), s("n2")]);
    let outcome = node.step(Event::TopologyOverride(vec![(s("n1"), vec![s("n2")])]));
    assert!(outcome.init_ok.is_none() && outcome.reply.is_none() && outcome.outbound.is_empty());
    let outcome = node.step(Event::Message(msg(
        "c1",
        GCounterMessageBody::Add(AddRequestMsg { msg_id: Some(2), delta: 6 }),
    )));
    let reply = outcome.reply.expect("an add is acknowledged");
    assert!(matches!(reply.body, GCounterMessageBody::AddOk(_)));
    assert!(outcome.init_ok.is_none() && outcome.outbound.is_empty() && !outcome.stop);
    let outcome = node.step(Event::Tick);
    assert_eq!(outcome.outbound.len(), 1);
    assert_eq!(outcome.outbound[0].dest, "n2");
    let outcome = node.step(Event::Shutdown);
    assert!(outcome.stop && outcome.reply.is_none() && outcome.outbound.is_empty());
    assert_eq!(node.internal_current(), 6);
}
