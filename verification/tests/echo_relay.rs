use netlat::chunk::copy_prefix;
use netlat::echo::{echo_reply, echo_server_step, EchoAction, RecvEvent};
use netlat::relay::{forwarder_step, relay_chunk, RelayAction};
use netlat::tester::{retry_connect_step, ConnectOutcome, ConnectPlan, RETRY_INTERVAL_SECS};

#[test]
fn copy_prefix_takes_exact_prefix() {
    let buf: Vec<u8> = vec![10, 20, 30, 40, 50];
    assert_eq!(copy_prefix(&buf, 3), vec![10, 20, 30]);
    assert_eq!(copy_prefix(&buf, 0), Vec::<u8>::new());
    assert_eq!(copy_prefix(&buf, 5), buf);
}

#[test]
fn echo_reply_returns_received_bytes_unchanged() {
    let mut buf: Vec<u8> = vec![0u8; 8];
    buf[0] = 0xde;
    buf[1] = 0xad;
    buf[2] = 0xbe;
    buf[3] = 0xef;
    // A short read of 4 bytes into an 8-byte buffer: only those 4 go back.
    assert_eq!(echo_reply(&buf, 4), vec![0xde, 0xad, 0xbe, 0xef]);
}

#[test]
fn echo_server_writes_back_data_and_stops_on_close() {
    assert_eq!(echo_server_step(1024, RecvEvent::Data(17)), EchoAction::WriteBack(17));
    assert_eq!(echo_server_step(1024, RecvEvent::Closed), EchoAction::Stop);
    assert_eq!(echo_server_step(1024, RecvEvent::Failed), EchoAction::Stop);
}

#[test]
fn distinct_connections_get_their_own_payloads() {
    let first: Vec<u8> = vec![1, 1, 1, 1];
    let second: Vec<u8> = vec![2, 2];
    let first_reply = echo_reply(&first, first.len());
    let second_reply = echo_reply(&second, second.len());
    assert_eq!(first_reply, first);
    assert_eq!(second_reply, second);
    assert_ne!(first_reply, second_reply);
}

#[test]
fn relay_chunk_forwards_bytes_verbatim() {
    let buf: Vec<u8> = vec![7, 8, 9, 0, 0];
    assert_eq!(relay_chunk(&buf, 3), vec![7, 8, 9]);
}

#[test]
fn relayed_chunks_form_the_sent_stream_in_order() {
    let buf: Vec<u8> = vec![b'a', b'b', b'c', b'd'];
    let mut upstream: Vec<u8> = Vec::new();
    for size in [2usize, 1, 4] {
        upstream.extend_from_slice(&relay_chunk(&buf, size));
    }
    assert_eq!(upstream, vec![b'a', b'b', b'a', b'a', b'b', b'c', b'd']);
}

#[test]
fn forwarder_forwards_data_and_stops_on_failure() {
    assert_eq!(forwarder_step(65536, RecvEvent::Data(100)), RelayAction::ForwardUpstream(100));
    assert_eq!(forwarder_step(65536, RecvEvent::Closed), RelayAction::Stop);
    assert_eq!(forwarder_step(65536, RecvEvent::Failed), RelayAction::Stop);
}

#[test]
fn retry_loop_waits_until_connected() {
    // The remote is not listening for two attempts, then accepts.
    let outcomes = [ConnectOutcome::Refused, ConnectOutcome::Refused, ConnectOutcome::Connected];
    let mut plans: Vec<ConnectPlan> = Vec::new();
    for outcome in outcomes {
        plans.push(retry_connect_step(outcome));
    }
    assert_eq!(
        plans,
        vec![ConnectPlan::WaitAndRetry, ConnectPlan::WaitAndRetry, ConnectPlan::Proceed]
    );
    assert_eq!(RETRY_INTERVAL_SECS, 1);
}
