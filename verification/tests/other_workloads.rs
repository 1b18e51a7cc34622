use maelstrom_challenge::algorithms::echo::EchoNode;
use maelstrom_challenge::algorithms::unique_ids::{
    get_milliseconds, node_string_id_to_u64, UniqueIdGenerator, EPOCH_START_MILLIS,
};
use maelstrom_challenge::errors::ErrorType;
use maelstrom_challenge::kv::{KvRpcBody, KvType, KV};
use maelstrom_challenge::node::{select_node, AnyNode};
use maelstrom_challenge::rpc::echo::{EchoMsgIn, EchoRequestMsg};
use maelstrom_challenge::rpc::unique_ids::{GenerateMsgIn, GenerateRequestMsg};
use maelstrom_challenge::rpc::{InitMsgIn, InitRequestMsg};
use maelstrom_challenge::workload::Workload;
use serde_json::Value;

fn s(text: &str) -> String {
    text.to_string()
}

fn init(node: &str) -> InitMsgIn {
    InitMsgIn {
        src: s("c1"),
        dest: s(node),
        body: InitRequestMsg::new(1, s(node), vec![s("n1"), s("n2"), s("n3")]),
    }
}

#[test]
fn init_reply_swaps_sender_and_receiver() {
    let request = init("n1");
    assert_eq!(request.body.msg_id, 1);
    assert_eq!(request.body.node_id, "n1");
    assert_eq!(request.body.node_ids, vec![s("n1"), s("n2"), s("n3")]);
    let out = request.into_response(7);
    assert_eq!(out.src, "n1");
    assert_eq!(out.dest, "c1");
    assert_eq!(out.body.in_reply_to, Some(1));
}

#[test]
fn echo_sends_the_payload_back() {
    let mut node = EchoNode::new(1);
    let out = node.on_init(init("n1"));
    assert_eq!(out.body.in_reply_to, Some(1));
    assert_eq!(node.last_msg_id(), 1);
    let msg = EchoMsgIn {
        src: s("c1"),
        dest: s("n1"),
        body: EchoRequestMsg::new(3, Value::String(s("please echo 35"))),
    };
    let out = node.handle(msg);
    assert_eq!(out.src, "n1");
    assert_eq!(out.dest, "c1");
    assert_eq!(out.body.msg_id, 2);
    assert_eq!(out.body.in_reply_to, Some(3));
    assert_eq!(out.body.echo, Value::String(s("please echo 35")));
    assert_eq!(node.last_msg_id(), 2);
}

#[test]
fn node_number_is_read_from_the_digits() {
    assert_eq!(node_string_id_to_u64("n2"), 2);
    assert_eq!(node_string_id_to_u64("n0"), 0);
    assert_eq!(node_string_id_to_u64("n12x3"), 123);
    assert_eq!(node_string_id_to_u64("007"), 7);
    assert_eq!(node_string_id_to_u64("node"), 0);
    assert_eq!(node_string_id_to_u64(""), 0);
    assert_eq!(node_string_id_to_u64("n18446744073709551615"), u64::MAX);
    assert_eq!(node_string_id_to_u64("n18446744073709551616"), 0);
    assert_eq!(node_string_id_to_u64("n184467440737095516150"), 0);
}

#[test]
fn milliseconds_keep_their_first_ten_digits() {
    let head = get_milliseconds(EPOCH_START_MILLIS + 1234567890123).expect("ten digits");
    assert_eq!(head, "1234567890");
    let head = get_milliseconds(EPOCH_START_MILLIS + 1000000000).expect("ten digits");
    assert_eq!(head, "1000000000");
    let head = get_milliseconds(EPOCH_START_MILLIS + 98765432109).expect("ten digits");
    assert_eq!(head, "9876543210");
}

#[test]
fn clock_before_the_epoch_is_a_crash() {
    let e = get_milliseconds(EPOCH_START_MILLIS - 1).expect_err("time went backwards");
    assert_eq!(e.code, ErrorType::Crash);
    assert_eq!(e.in_reply_to, None);
    assert_eq!(e.text, "Unrecoverable error");
    let e = get_milliseconds(EPOCH_START_MILLIS + 999999999).expect_err("nine digits");
    assert_eq!(e.code, ErrorType::Crash);
    let e = get_milliseconds(0).expect_err("time went backwards");
    assert_eq!(e.code, ErrorType::Crash);
}

#[test]
fn generated_id_packs_time_node_and_count() {
    let mut node = UniqueIdGenerator::new(1);
    node.on_init(init("n2"));
    assert_eq!(node.node_number(), 2);
    let now = EPOCH_START_MILLIS + 1234567890123;
    let first = node.generate(now).expect("an id");
    assert_eq!(first, (1234567890u64 << 23) + (2 << 10) + 2);
    assert_eq!(first, 10356306078599170);
    let second = node.generate(now).expect("an id");
    assert_eq!(second, first + 1);
    let e = node.generate(5).expect_err("before the epoch");
    assert_eq!(e.code, ErrorType::Crash);
    let fourth = node.generate(now).expect("an id");
    assert_eq!(fourth, first + 3);
}

#[test]
fn generated_id_that_does_not_fit_is_a_crash() {
    let mut node = UniqueIdGenerator::new(1);
    node.on_init(init("n18014398509481983"));
    assert_eq!(node.node_number(), 18014398509481983);
    let e = node.generate(EPOCH_START_MILLIS + 1234567890123).expect_err("too large");
    assert_eq!(e.code, ErrorType::Crash);
}

#[test]
fn generate_request_is_answered_with_the_id() {
    let mut node = UniqueIdGenerator::new(1);
    node.on_init(init("n3"));
    let request = GenerateMsgIn { src: s("c1"), dest: s("n3"), body: GenerateRequestMsg::new(4) };
    let out = node.handle(request, EPOCH_START_MILLIS + 1234567890123).expect("an id");
    assert_eq!(out.src, "n3");
    assert_eq!(out.dest, "c1");
    assert_eq!(out.body.in_reply_to, Some(4));
    assert_eq!(out.body.msg_id, 2);
    assert_eq!(out.body.value, ((1234567890u64 << 23) + (3 << 10) + 2).to_string());
    assert_eq!(out.body.value, "10356306078600194");
    let request = GenerateMsgIn { src: s("c1"), dest: s("n3"), body: GenerateRequestMsg::new(5) };
    let e = node.handle(request, 1).expect_err("before the epoch");
    assert_eq!(e.code, ErrorType::Crash);
    assert_eq!(node.last_msg_id(), 3);
}

#[test]
fn generate_reply_without_id_is_empty() {
    let request = GenerateMsgIn { src: s("c1"), dest: s("n3"), body: GenerateRequestMsg::new(4) };
    let out = request.into_response(9);
    assert_eq!(out.src, "n3");
    assert_eq!(out.dest, "c1");
    assert_eq!(out.body.in_reply_to, Some(4));
    assert_eq!(out.body.msg_id, 9);
    assert_eq!(out.body.value, "");
}

#[test]
fn kv_requests_are_addressed_to_the_service() {
    let kv = KV::new(KvType::SeqKV);
    let rpc = kv.read(s("k"));
    assert_eq!(rpc.dest, KvType::SeqKV);
    match rpc.body {
        KvRpcBody::Read(r) => assert_eq!(r.key, "k"),
        other => panic!("not a read: {:?}", other),
    }
    let rpc = kv.write(s("k"), Value::Bool(true));
    assert_eq!(rpc.dest, KvType::SeqKV);
    match rpc.body {
        KvRpcBody::Write(w) => {
            assert_eq!(w.key, "k");
            assert_eq!(w.value, Value::Bool(true));
        }
        other => panic!("not a write: {:?}", other),
    }
    let rpc = KV::new(KvType::LwwKV).cas(s("k"), Value::from(1u64), Value::from(2u64), Some(true));
    assert_eq!(rpc.dest, KvType::LwwKV);
    match rpc.body {
        KvRpcBody::Cas(c) => {
            assert_eq!(c.key, "k");
            assert_eq!(c.from, Value::from(1u64));
            assert_eq!(c.to, Value::from(2u64));
            assert_eq!(c.create_if_not_exists, Some(true));
        }
        other => panic!("not a cas: {:?}", other),
    }
}

#[test]
fn only_four_workloads_have_a_node() {
    assert!(Workload::Echo.implemented());
    assert!(Workload::UniqueIds.implemented());
    assert!(Workload::Broadcast.implemented());
    assert!(Workload::GCounter.implemented());
    assert!(!Workload::GSet.implemented());
    assert!(!Workload::Kafka.implemented());
    assert!(!Workload::LinKV.implemented());
    assert!(!Workload::PNCounter.implemented());
    assert!(!Workload::TxnListAppend.implemented());
    assert!(!Workload::TxnRwRegister.implemented());
}

#[test]
fn node_is_selected_by_workload() {
    assert!(matches!(select_node(Workload::Echo, 1), Ok(AnyNode::Echo(_))));
    assert!(matches!(select_node(Workload::UniqueIds, 1), Ok(AnyNode::UniqueIds(_))));
    assert!(matches!(select_node(Workload::Broadcast, 1), Ok(AnyNode::Broadcast(_))));
    assert!(matches!(select_node(Workload::GCounter, 1), Ok(AnyNode::GCounter(_))));
    match select_node(Workload::Broadcast, 7) {
        Ok(AnyNode::Broadcast(node)) => {
            assert_eq!(node.last_msg_id(), 7);
            assert_eq!(node.node_id(), "n0");
            assert!(node.values().is_empty());
            assert!(node.peers().is_empty());
        }
        other => panic!("not a broadcast node: {:?}", other),
    }
    for workload in [
        Workload::GSet,
        Workload::Kafka,
        Workload::LinKV,
        Workload::PNCounter,
        Workload::TxnListAppend,
        Workload::TxnRwRegister,
    ] {
        let e = select_node(workload, 1).expect_err("no node for this workload");
        assert_eq!(e.code, ErrorType::NotSupported);
        assert_eq!(e.code.code(), 10);
        assert_eq!(e.in_reply_to, None);
    }
}
