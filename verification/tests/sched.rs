use rustos::ipc::{EndpointId, Message, MsgHeader, MsgType, Router};
use rustos::sched::{run, PingTask, PongTask};

#[test]
fn ping_pong_one_round() {
    let mut router = Router::new();
    let mut ping = PingTask::new();
    let mut pong = PongTask::new();
    assert_eq!(ping.seq(), 1);
    assert!(!ping.waiting());

    // After the ping task's poll at tick 0 the pong mailbox holds the ping.
    ping.poll(&mut router, 0);
    assert!(router.is_full(EndpointId::Pong));
    assert!(ping.waiting());
    let msg = router.recv(EndpointId::Pong).expect("pong mailbox should be full");
    assert_eq!(msg.header.src, EndpointId::Ping);
    assert_eq!(msg.header.dst, EndpointId::Pong);
    assert!(matches!(msg.header.ty, MsgType::Ping));
    assert_eq!(msg.header.len, 4);
    assert_eq!(msg.header.seq, 1);
    assert_eq!(msg.payload, [0x01, 0, 0, 0, 0, 0, 0, 0]);
    router.send(msg).expect("restoring the message should succeed");

    // After the pong task's poll the reply sits in the ping mailbox.
    pong.poll(&mut router, 0);
    assert!(!router.is_full(EndpointId::Pong));
    assert!(router.is_full(EndpointId::Ping));
    let reply = router.recv(EndpointId::Ping).expect("ping mailbox should be full");
    assert_eq!(reply.header.src, EndpointId::Pong);
    assert_eq!(reply.header.dst, EndpointId::Ping);
    assert!(matches!(reply.header.ty, MsgType::Pong));
    assert_eq!(reply.header.seq, 1);
    assert_eq!(reply.payload, [0x01, 0, 0, 0, 0, 0, 0, 0]);
    router.send(reply).expect("restoring the reply should succeed");

    // After the ping task's next poll it is idle again.
    ping.poll(&mut router, 0);
    assert!(!router.is_full(EndpointId::Ping));
    assert!(!ping.waiting());
    assert_eq!(ping.seq(), 2);
}

#[test]
fn ping_backpressure_keeps_state() {
    let mut router = Router::new();
    let mut ping = PingTask::new();
    // Pre-load the pong mailbox so the send must fail.
    let blocker = Message {
        header: MsgHeader {
            src: EndpointId::Ping,
            dst: EndpointId::Pong,
            ty: MsgType::Ping,
            len: 0,
            seq: 0xFFFF,
        },
        payload: [0u8; 8],
    };
    router.send(blocker).expect("pre-loading should succeed");

    ping.poll(&mut router, 0);
    assert!(!ping.waiting());
    assert_eq!(ping.seq(), 1);
    // The blocked mailbox still holds the pre-loaded message.
    let still_there = router.recv(EndpointId::Pong).expect("blocker should survive");
    assert_eq!(still_there.header.seq, 0xFFFF);
}

#[test]
fn pong_ignores_non_ping_messages() {
    let mut router = Router::new();
    let mut pong = PongTask::new();
    let stray = Message {
        header: MsgHeader {
            src: EndpointId::Ping,
            dst: EndpointId::Pong,
            ty: MsgType::Pong,
            len: 0,
            seq: 5,
        },
        payload: [0u8; 8],
    };
    router.send(stray).expect("send should succeed");
    pong.poll(&mut router, 0);
    // The stray message is consumed and no reply is emitted.
    assert!(!router.is_full(EndpointId::Pong));
    assert!(!router.is_full(EndpointId::Ping));
}

#[test]
fn pong_echoes_payload_sequence_not_header() {
    let mut router = Router::new();
    let mut pong = PongTask::new();
    // Payload carries 0x0102_0304 while the header says 9.
    let msg = Message {
        header: MsgHeader {
            src: EndpointId::Ping,
            dst: EndpointId::Pong,
            ty: MsgType::Ping,
            len: 4,
            seq: 9,
        },
        payload: [0x04, 0x03, 0x02, 0x01, 0, 0, 0, 0],
    };
    router.send(msg).expect("send should succeed");
    pong.poll(&mut router, 0);
    let reply = router.recv(EndpointId::Ping).expect("reply expected");
    assert_eq!(reply.header.seq, 0x0102_0304);
    assert_eq!(reply.payload, [0x04, 0x03, 0x02, 0x01, 0, 0, 0, 0]);
}

#[test]
fn run_performs_rounds_every_tenth_tick() {
    let mut router = Router::new();
    let mut ping = PingTask::new();
    let mut pong = PongTask::new();
    let ticks = run(&mut ping, &mut pong, &mut router, 25);
    assert_eq!(ticks, 25);
    // Pings went out at ticks 0, 10 and 20; each round completed.
    assert_eq!(ping.seq(), 4);
    assert!(!ping.waiting());
    assert!(!router.is_full(EndpointId::Ping));
    assert!(!router.is_full(EndpointId::Pong));
}

#[test]
fn run_zero_sweeps_changes_nothing() {
    let mut router = Router::new();
    let mut ping = PingTask::new();
    let mut pong = PongTask::new();
    let ticks = run(&mut ping, &mut pong, &mut router, 0);
    assert_eq!(ticks, 0);
    assert_eq!(ping.seq(), 1);
    assert!(!ping.waiting());
}

#[test]
fn tick_observed_by_tasks_is_nondecreasing() {
    // One full round per ten ticks: after each sweep the sequence number,
    // which only moves forward when a later tick arrives, never goes back.
    let mut router = Router::new();
    let mut ping = PingTask::new();
    let mut pong = PongTask::new();
    let mut last_seq = ping.seq();
    for tick in 0u64..40 {
        ping.poll(&mut router, tick);
        pong.poll(&mut router, tick);
        assert!(ping.seq() >= last_seq);
        last_seq = ping.seq();
    }
    assert_eq!(last_seq, 5);
}
