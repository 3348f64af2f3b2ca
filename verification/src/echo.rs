//! What an echo server does: for every unit of received data, write exactly
//! those bytes back to the peer they came from, unmodified, before receiving
//! more. One handler serves one peer and owns its own buffer, so handlers
//! cannot see each other's data.

use vstd::prelude::*;

use crate::chunk::{copy_prefix, received_bytes};

verus! {

/// What one pass of a receive loop observed: a unit of data of the given
/// length, an orderly end of stream, or an I/O failure.
#[derive(Clone, Copy, Debug, PartialEq, Eq, Structural)]
pub enum RecvEvent {
    Data(usize),
    Closed,
    Failed,
}

/// What an echo handler does in response: write the first `n` bytes of its
/// receive buffer back to the peer, or end its loop.
#[derive(Clone, Copy, Debug, PartialEq, Eq, Structural)]
pub enum EchoAction {
    WriteBack(usize),
    Stop,
}

/// An echo reply is the received bytes, unchanged.
pub open spec fn echo_reply_spec(received: Seq<u8>) -> Seq<u8> {
    received
}

/// The bytes an echo handler writes back after a receive of `size` bytes
/// into `buf`: exactly the bytes received, unmodified.
pub fn echo_reply(buf: &Vec<u8>, size: usize) -> (reply: Vec<u8>)
    requires
        size <= buf.len(),
    ensures
        reply@ == echo_reply_spec(received_bytes(buf@, size as int)),
{
    copy_prefix(buf, size)
}

/// One decision of the echo server's per-connection loop. A unit of data is
/// written back at its exact received length; end of stream or an I/O error
/// ends the handler's loop — failures are fatal within the role, never
/// retried.
pub fn echo_server_step(max_data_size: usize, event: RecvEvent) -> (action: EchoAction)
    requires
        event matches RecvEvent::Data(n) ==> 1 <= n <= max_data_size,
    ensures
        forall|n: usize| event == RecvEvent::Data(n) ==> action == EchoAction::WriteBack(n),
        event == RecvEvent::Closed ==> action == EchoAction::Stop,
        event == RecvEvent::Failed ==> action == EchoAction::Stop,
{
    match event {
        RecvEvent::Data(n) => EchoAction::WriteBack(n),
        RecvEvent::Closed => EchoAction::Stop,
        RecvEvent::Failed => EchoAction::Stop,
    }
}

/// Echo idempotence: for every byte sequence `b` no longer than the server's
/// `max_data_size`, the reply to `b` is exactly `b`.
pub proof fn lemma_echo_idempotence(b: Seq<u8>, max_data_size: nat)
    requires
        b.len() <= max_data_size,
    ensures
        echo_reply_spec(b) == b,
{
}

/// The replies a connection's handler produces for the units it received,
/// in the order it received them.
pub open spec fn replies_of(units: Seq<Seq<u8>>) -> Seq<Seq<u8>> {
    units.map_values(|u: Seq<u8>| echo_reply_spec(u))
}

/// In-order echo: within one connection, every received unit is echoed
/// before the next is received, so the sequence of replies is exactly the
/// sequence of received units, in order.
pub proof fn lemma_echo_order(units: Seq<Seq<u8>>)
    ensures
        replies_of(units) == units,
{
    assert(replies_of(units) =~= units);
}

/// Connection isolation: each handler's reply is a function of that
/// handler's own received bytes alone, so two connections carrying distinct
/// payloads each get exactly their own payload back — never the other's.
pub proof fn lemma_connection_isolation(b1: Seq<u8>, b2: Seq<u8>)
    requires
        b1 != b2,
    ensures
        echo_reply_spec(b1) == b1,
        echo_reply_spec(b2) == b2,
        echo_reply_spec(b1) != echo_reply_spec(b2),
{
}

} // verus!
