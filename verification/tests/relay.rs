use cotoxy::consul::{ServiceNode, TaggedAddresses};
use cotoxy::error::{Direction, Error, Side};
use cotoxy::proxy::{Proxy, SessionPhase};
use cotoxy::proxy_channel::{
    pump_through, Buffer, ProxyChannel, RelayEvent, RelayOp, RelayVerdict,
};

#[test]
fn buffer_keeps_byte_order() {
    let mut buf = Buffer::new(8);
    assert_eq!(buf.free_len(), 8);
    assert_eq!(buf.pending_len(), 0);
    buf.push_bytes(&[1, 2, 3]);
    assert_eq!(buf.pending_len(), 3);
    assert_eq!(buf.free_len(), 5);
    buf.push_bytes(&[4, 5]);
    assert_eq!(buf.pending_bytes(), vec![1, 2, 3, 4, 5]);
    let first = buf.take_bytes(2);
    assert_eq!(first, vec![1, 2]);
    assert_eq!(buf.pending_bytes(), vec![3, 4, 5]);
    // Free space does not rewind on a partial drain.
    assert_eq!(buf.free_len(), 3);
    let rest = buf.take_bytes(3);
    assert_eq!(rest, vec![3, 4, 5]);
    // A full drain makes the whole capacity available again.
    assert_eq!(buf.free_len(), 8);
    assert_eq!(buf.pending_len(), 0);
}

#[test]
fn pump_preserves_content_and_order_across_many_cycles() {
    // A payload much larger than the buffer capacity forces many
    // read/write cycles; the output must equal the input byte for byte.
    let mut input: Vec<u8> = Vec::new();
    let mut i: u32 = 0;
    while i < 100 {
        input.push((i % 251) as u8);
        i += 1;
    }
    let out = pump_through(&input, 8, 8);
    assert_eq!(out, input);
}

#[test]
fn pump_survives_partial_writes() {
    // A destination that accepts at most three bytes per write still
    // observes the whole input, in order.
    let input: Vec<u8> = vec![10, 20, 30, 40, 50, 60, 70, 80, 90, 100, 110];
    let out = pump_through(&input, 4, 3);
    assert_eq!(out, input);
}

#[test]
fn pump_moves_an_empty_input() {
    let input: Vec<u8> = Vec::new();
    let out = pump_through(&input, 4, 2);
    assert_eq!(out, input);
}

#[test]
fn relay_round_trip_through_both_directions() {
    // Client bytes reach the backend unchanged, and backend bytes reach the
    // client unchanged, each through its own buffer.
    let mut channel = ProxyChannel::with_buffer_size(4);

    // Client sends six bytes; the relay reads at most the free space.
    assert_eq!(channel.current_op(), RelayOp::ReadClient);
    let v = channel.step(RelayEvent::Read(vec![1, 2, 3, 4]));
    assert_eq!(v, RelayVerdict::Continue);
    // The round restarts at ReadClient; the client has nothing more yet.
    let v = channel.step(RelayEvent::NotReady);
    assert_eq!(v, RelayVerdict::Advance);
    assert_eq!(channel.current_op(), RelayOp::WriteServer);
    let to_server = channel.client_buf.pending_bytes();
    assert_eq!(to_server, vec![1, 2, 3, 4]);
    let v = channel.step(RelayEvent::Wrote(4));
    assert_eq!(v, RelayVerdict::Continue);
    assert_eq!(channel.client_buf.pending_len(), 0);

    // The backend answers; its bytes flow back through the other buffer.
    let v = channel.step(RelayEvent::NotReady);
    assert_eq!(v, RelayVerdict::Advance);
    let v = channel.step(RelayEvent::NotReady);
    assert_eq!(v, RelayVerdict::Advance);
    assert_eq!(channel.current_op(), RelayOp::ReadServer);
    let v = channel.step(RelayEvent::Read(vec![9, 8]));
    assert_eq!(v, RelayVerdict::Continue);
    assert_eq!(channel.server_buf.pending_bytes(), vec![9, 8]);
}

#[test]
fn partial_write_keeps_the_rest_buffered() {
    let mut channel = ProxyChannel::with_buffer_size(8);
    channel.step(RelayEvent::Read(vec![5, 6, 7, 8]));
    channel.step(RelayEvent::NotReady);
    assert_eq!(channel.current_op(), RelayOp::WriteServer);
    let v = channel.step(RelayEvent::Wrote(1));
    assert_eq!(v, RelayVerdict::Continue);
    assert_eq!(channel.client_buf.pending_bytes(), vec![6, 7, 8]);
}

#[test]
fn yield_after_a_whole_round_without_progress() {
    let mut channel = ProxyChannel::new();
    assert_eq!(channel.step(RelayEvent::NotReady), RelayVerdict::Advance);
    assert_eq!(channel.step(RelayEvent::NotReady), RelayVerdict::Advance);
    assert_eq!(channel.step(RelayEvent::NotReady), RelayVerdict::Advance);
    assert_eq!(channel.step(RelayEvent::NotReady), RelayVerdict::Yield);
    assert_eq!(channel.current_op(), RelayOp::ReadClient);
}

#[test]
fn end_of_stream_finishes_the_relay() {
    // A close observed on either socket, in either direction, ends the whole
    // relay normally, and the caller then closes the other socket too.
    let mut channel = ProxyChannel::new();
    assert_eq!(channel.step(RelayEvent::Closed), RelayVerdict::Finished);

    let mut channel = ProxyChannel::new();
    channel.step(RelayEvent::NotReady);
    channel.step(RelayEvent::NotReady);
    assert_eq!(channel.current_op(), RelayOp::ReadServer);
    assert_eq!(channel.step(RelayEvent::Closed), RelayVerdict::Finished);
}

#[test]
fn socket_error_is_fatal_and_names_side_and_direction() {
    let mut channel = ProxyChannel::new();
    let v = channel.step(RelayEvent::Failed);
    assert_eq!(
        v,
        RelayVerdict::Fatal(Error::RelayError {
            side: Side::Client,
            direction: Direction::ClientToServer,
        })
    );

    let mut channel = ProxyChannel::new();
    channel.step(RelayEvent::NotReady);
    assert_eq!(channel.current_op(), RelayOp::WriteServer);
    let v = channel.step(RelayEvent::Failed);
    assert_eq!(
        v,
        RelayVerdict::Fatal(Error::RelayError {
            side: Side::Server,
            direction: Direction::ClientToServer,
        })
    );

    let mut channel = ProxyChannel::new();
    channel.step(RelayEvent::NotReady);
    channel.step(RelayEvent::NotReady);
    channel.step(RelayEvent::NotReady);
    assert_eq!(channel.current_op(), RelayOp::WriteClient);
    let v = channel.step(RelayEvent::Failed);
    assert_eq!(
        v,
        RelayVerdict::Fatal(Error::RelayError {
            side: Side::Client,
            direction: Direction::ServerToClient,
        })
    );
}

#[test]
fn session_runs_select_then_relay_then_done() {
    let mut session = Proxy::new(Some(443), 1000);
    assert_eq!(session.phase, SessionPhase::Selecting);
    session.select.on_candidates(vec![ServiceNode {
        id: "id".to_string(),
        node: "n1".to_string(),
        address: "10.0.0.1".to_string(),
        datacenter: "dc1".to_string(),
        tagged_addresses: TaggedAddresses {
            lan: "10.0.0.1".to_string(),
            wan: "10.0.0.1".to_string(),
        },
        node_meta: Vec::new(),
        create_index: 1,
        modify_index: 1,
        service_address: None,
        service_enable_tag_override: false,
        service_id: "sid".to_string(),
        service_name: "svc".to_string(),
        service_port: 8080,
        service_tags: Vec::new(),
    }]);
    let attempt = session.select.next_candidate().unwrap();
    assert_eq!(attempt.port, 443);
    let backend = session.backend_connected();
    assert_eq!(backend.host, "10.0.0.1");
    assert_eq!(session.phase, SessionPhase::Relaying);

    let v = session.relay_step(RelayEvent::Read(vec![42]));
    assert_eq!(v, RelayVerdict::Continue);
    assert_eq!(session.phase, SessionPhase::Relaying);
    let v = session.relay_step(RelayEvent::Closed);
    assert_eq!(v, RelayVerdict::Finished);
    assert_eq!(session.phase, SessionPhase::Done);
}

#[test]
fn session_aborts_when_selection_fails() {
    let mut session = Proxy::new(None, 1000);
    match session.select.next_candidate() {
        Err(e) => assert_eq!(e, Error::NoAvailableBackend),
        Ok(_) => panic!("an empty selector must fail"),
    }
    session.abort();
    assert_eq!(session.phase, SessionPhase::Done);
}
