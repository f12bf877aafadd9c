use antrelay::io::{ack_of, id_key, split_initial_buffer, split_step, AckRoute, AckTable, SplitOutcome};
use antrelay::message::ack::Ack;
use antrelay::message::header::{Conversation, Destination, Disposition, Header, Server};
use antrelay::message::{Message, MissionEpoch, OpaqueBytes, PackingError, UniqueId};
use antrelay::relay::control::{Control, StateVal};
use antrelay::relay::serial::{Action, Event, SerialControl, Step};
use antrelay::relay::{
    ack_uplink_packet, addressed_to_frontend, check_reply, command_message, log_downlink_message,
    relays_to_serial, reply_accepted, wrap_serial_packet_for_downlink, wrap_uplink_for_downlink,
    ReplyVerdict,
};
use antrelay::util::PacketEnv;

#[test]
fn control_typestate_walks_the_mission() {
    let c = Control::new();
    assert_eq!(c.discriminator(), StateVal::FlightIdle);
    let c = c.voltage_supplied();
    assert_eq!(c.discriminator(), StateVal::PingCentralStation);
    let c = c.garage_pending();
    assert_eq!(c.discriminator(), StateVal::StartBLE);
    let c = c.ble_started();
    assert_eq!(c.discriminator(), StateVal::AwaitRoverStationary);
    let c = c.rover_stopped();
    assert_eq!(c.discriminator(), StateVal::CalibrateIMU);
    let c = c.calibration_complete();
    assert_eq!(c.discriminator(), StateVal::AntRun);
    let c = c.rover_moving();
    assert_eq!(c.discriminator(), StateVal::AwaitRoverStationary);
    assert_eq!(Control::default().discriminator(), StateVal::FlightIdle);
}

fn run(c: SerialControl, events: &[Event]) -> (SerialControl, Vec<Step>) {
    let mut c = c;
    let mut steps = vec![];
    for e in events {
        let s = c.step(*e);
        c = s.next;
        steps.push(s);
    }
    (c, steps)
}

#[test]
fn serial_control_full_mission() {
    let start = SerialControl::start(StateVal::FlightIdle);
    assert_eq!(start.action, Action::Wait);
    assert!(start.next.listening());
    let (c, steps) = run(
        start.next,
        &[
            Event::Uplink(Conversation::Ping),
            Event::Uplink(Conversation::PowerSupplied),
            Event::CommandDone(true),
            Event::PingCycleDone,
            Event::Uplink(Conversation::GarageOpenPending),
            Event::CommandDone(true),
            Event::Uplink(Conversation::RoverStopping),
            Event::CommandDone(true),
            Event::Uplink(Conversation::RoverMoving),
        ],
    );
    let actions: Vec<Action> = steps.iter().map(|s| s.action).collect();
    assert_eq!(
        actions,
        vec![
            Action::Wait,
            Action::ForwardUplink,
            Action::PingCycle,
            Action::PingCycle,
            Action::SendCommand(Conversation::Start),
            Action::Wait,
            Action::SendCommand(Conversation::Calibrate),
            Action::Wait,
            Action::Wait,
        ]
    );
    assert!(steps.iter().all(|s| !s.failed));
    assert_eq!(c.state, StateVal::AwaitRoverStationary);
}

#[test]
fn serial_control_failures_restart_the_stage() {
    let forwarding = SerialControl { state: StateVal::FlightIdle, forwarding: true };
    assert!(!forwarding.listening());
    let s = forwarding.step(Event::CommandDone(false));
    assert!(s.failed);
    assert_eq!(s.next, SerialControl { state: StateVal::FlightIdle, forwarding: false });

    let ble = SerialControl { state: StateVal::StartBLE, forwarding: false };
    assert!(!ble.listening());
    let s = ble.step(Event::CommandDone(false));
    assert!(s.failed);
    assert_eq!(s.action, Action::SendCommand(Conversation::Start));

    let cal = SerialControl { state: StateVal::CalibrateIMU, forwarding: false };
    let s = cal.step(Event::UplinkClosed);
    assert!(s.failed);
    assert_eq!(s.action, Action::SendCommand(Conversation::Calibrate));
    let s = cal.step(Event::Uplink(Conversation::RoverMoving));
    assert!(!s.failed);
    assert_eq!(s.next.state, StateVal::AwaitRoverStationary);

    let ping = SerialControl { state: StateVal::PingCentralStation, forwarding: false };
    let s = ping.step(Event::UplinkClosed);
    assert!(s.failed);
    assert_eq!(s.action, Action::PingCycle);
}

#[test]
fn serial_control_ignores_other_events() {
    let run_state = SerialControl { state: StateVal::AntRun, forwarding: false };
    let s = run_state.step(Event::Uplink(Conversation::RoverStopping));
    assert_eq!(s.next, run_state);
    assert_eq!(s.action, Action::Wait);
    let s = run_state.step(Event::CommandDone(true));
    assert_eq!(s.next, run_state);
}

fn frontend_message(conv: Conversation, payload: Vec<u8>) -> Message<OpaqueBytes> {
    let mut env = PacketEnv::new(MissionEpoch::new(77));
    let mut h = Header::fe_command(&mut env, conv);
    h.destination = Destination::Frontend;
    h.seq = 9;
    Message::new(h, payload)
}

#[test]
fn ack_for_frontend_messages_only() {
    let mut env = PacketEnv::new(MissionEpoch::new(1000));
    let m = frontend_message(Conversation::PowerSupplied, b"123456789".to_vec());
    assert!(addressed_to_frontend(&m));
    assert!(!relays_to_serial(&m));
    let ack = ack_uplink_packet(&mut env, &m).unwrap();
    assert_eq!(ack.header.destination, Destination::Ground);
    assert_eq!(ack.header.ty.conversation_type, Conversation::PowerSupplied);
    assert_eq!(ack.header.timestamp, MissionEpoch::new(1000));
    assert_eq!(
        ack.payload.payload,
        Ack { timestamp: MissionEpoch::new(77), seq: 9, checksum: 0xf4 }
    );
    assert!(ack.payload.payload.matches(&m.header));
    assert_eq!(env.seq, 1);

    let mut other = m.clone();
    other.header.destination = Destination::Ant;
    assert!(relays_to_serial(&other));
    assert!(ack_uplink_packet(&mut env, &other).is_none());
    assert_eq!(env.seq, 1);
}

#[test]
fn serial_reply_verdicts() {
    let mut env = PacketEnv::default();
    let h = Header::downlink(&mut env, Conversation::Start);
    let reply: Message<Ack> =
        Message::new(h, Ack { timestamp: MissionEpoch::new(1), seq: 2, checksum: 3 });
    assert_eq!(check_reply(&reply, 3), ReplyVerdict::Accepted);
    assert_eq!(check_reply(&reply, 4), ReplyVerdict::ChecksumMismatch);
    assert!(reply_accepted(&reply));
    let mut invalid = reply.clone();
    invalid.header.ty.request_was_invalid = true;
    assert_eq!(check_reply(&invalid, 3), ReplyVerdict::Invalid);
    assert!(!reply_accepted(&invalid));
}

#[test]
fn outgoing_messages() {
    let mut env = PacketEnv::new(MissionEpoch::new(5));
    let c = command_message(&mut env, Conversation::Calibrate);
    assert_eq!(c.header.destination, Destination::CentralStation);
    assert_eq!(c.header.ty.server, Server::CentralStation);
    assert!(c.payload.payload.is_empty());
    let u = wrap_uplink_for_downlink(&mut env, vec![1, 2]);
    assert_eq!(u.header.ty.conversation_type, Conversation::Relay);
    assert_eq!(u.header.destination, Destination::Ground);
    assert_eq!(u.payload.payload, vec![1, 2]);
    let s = wrap_serial_packet_for_downlink(&mut env, &[0, 0, 0], vec![3]);
    assert_eq!(s.header.ty.server, Server::CentralStation);
    assert_eq!(s.payload.payload, vec![0, 0, 0, 3]);
    assert_eq!(s.header.ty.conversation_type, Conversation::Ping);
    let l = log_downlink_message(&mut env, vec![4]);
    assert_eq!(l.header.ty.disposition, Disposition::Ack);
    assert_eq!(l.header.ty.server, Server::Frontend);
    assert_eq!((c.header.seq, u.header.seq, s.header.seq, l.header.seq), (0, 1, 2, 3));
}

#[test]
fn splitting_serial_packets() {
    let sentinel = [0u8];
    let mut buf = split_initial_buffer(&sentinel);
    assert_eq!(buf, vec![0]);
    buf.extend_from_slice(&[1, 2]);
    assert!(matches!(split_step(&mut buf, &sentinel, 2), SplitOutcome::NeedMore));
    buf.extend_from_slice(&[3, 0]);
    match split_step(&mut buf, &sentinel, 2) {
        SplitOutcome::Packet(p) => assert_eq!(p, vec![0, 1, 2, 3]),
        _ => panic!("expected a packet"),
    }
    assert_eq!(buf, vec![0]);
    assert!(matches!(split_step(&mut buf, &sentinel, 0), SplitOutcome::End));
    let two = [0xaa, 0xbb];
    let mut buf = vec![5, 0xaa, 0xbb];
    match split_step(&mut buf, &two, 3) {
        SplitOutcome::Packet(p) => assert_eq!(p, vec![5]),
        _ => panic!("expected a packet"),
    }
    assert_eq!(buf, vec![0xaa, 0xbb]);
}

fn ack_message(id: UniqueId) -> Message<OpaqueBytes> {
    let mut env = PacketEnv::default();
    let mut h = Header::downlink(&mut env, Conversation::Start);
    h.ty.disposition = Disposition::Ack;
    let ack = Ack { timestamp: id.timestamp, seq: id.seq, checksum: 1 };
    let bytes = antrelay::message::pack_to_vec(&ack).unwrap();
    Message::new(h, bytes)
}

#[test]
fn acks_are_routed_to_waiting_commands() {
    let id = UniqueId { timestamp: MissionEpoch::new(12), seq: 4 };
    let mut table = AckTable::new();
    let (tx, rx) = smol::channel::bounded(1);
    assert!(table.register(id, tx).is_none());
    match table.route(&ack_message(id)) {
        Ok(AckRoute::Deliver(tx, ack)) => {
            assert_eq!(ack.payload.payload.unique_id(), id);
            tx.try_send(ack).unwrap();
        },
        _ => panic!("expected delivery"),
    }
    assert_eq!(rx.try_recv().unwrap().payload.payload.seq, 4);
    match table.route(&ack_message(id)) {
        Ok(AckRoute::Unregistered(got)) => assert_eq!(got, id),
        _ => panic!("expected no handler"),
    }
    let mut not_ack = ack_message(id);
    not_ack.header.ty.disposition = Disposition::Command;
    assert!(matches!(table.route(&not_ack), Ok(AckRoute::NotAnAck)));
    let mut short = ack_message(id);
    short.payload.payload.pop();
    assert!(matches!(
        table.route(&short),
        Err(PackingError::BufferSizeMismatch { expected: 8, actual: 7 })
    ));
    let (tx2, _rx2) = smol::channel::bounded(1);
    assert!(table.register(id, tx2).is_none());
    table.cancel(id);
    assert!(matches!(table.route(&ack_message(id)), Ok(AckRoute::Unregistered(_))));
}

#[test]
fn ack_of_reads_the_payload() {
    let id = UniqueId { timestamp: MissionEpoch::new(300), seq: 1 };
    let a = ack_of(&ack_message(id)).unwrap();
    assert_eq!(a.payload.payload.unique_id(), id);
    assert_eq!(id_key(id), 300 * 256 + 1);
}
