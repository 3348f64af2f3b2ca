//! What a relay forwarder does: bind a local address, keep one fixed
//! outbound peer, and move inbound bytes to that peer verbatim. TCP relays
//! through a single shared upstream connection whose writes are serialized
//! by a lock; UDP forwards each datagram to the fixed remote, statelessly
//! and in the local-to-remote direction only.

use vstd::prelude::*;

use crate::chunk::{copy_prefix, received_bytes};
use crate::echo::RecvEvent;

verus! {

/// What a forwarder handler does in response to one receive: hand the first
/// `n` bytes of its buffer to the fixed upstream peer, or end its loop.
#[derive(Clone, Copy, Debug, PartialEq, Eq, Structural)]
pub enum RelayAction {
    ForwardUpstream(usize),
    Stop,
}

/// A relayed chunk is the received chunk, unchanged.
pub open spec fn relay_spec(chunk: Seq<u8>) -> Seq<u8> {
    chunk
}

/// The byte stream that a sequence of chunks forms: their concatenation in
/// order.
pub open spec fn stream_of(chunks: Seq<Seq<u8>>) -> Seq<u8>
    decreases chunks.len(),
{
    if chunks.len() == 0 {
        Seq::empty()
    } else {
        chunks.first() + stream_of(chunks.drop_first())
    }
}

/// The bytes one receive of `size` bytes into `buf` hands to the upstream
/// peer: exactly the bytes received, unmodified.
pub fn relay_chunk(buf: &Vec<u8>, size: usize) -> (out: Vec<u8>)
    requires
        size <= buf.len(),
    ensures
        out@ == relay_spec(received_bytes(buf@, size as int)),
{
    copy_prefix(buf, size)
}

/// One decision of a forwarder handler's loop. A unit of data is forwarded
/// to the upstream peer at its exact received length, under the upstream
/// lock; end of stream or an I/O error ends the handler's loop — fail fast,
/// no retry.
pub fn forwarder_step(max_data_size: usize, event: RecvEvent) -> (action: RelayAction)
    requires
        event matches RecvEvent::Data(n) ==> 1 <= n <= max_data_size,
    ensures
        forall|n: usize| event == RecvEvent::Data(n) ==> action == RelayAction::ForwardUpstream(n),
        event == RecvEvent::Closed ==> action == RelayAction::Stop,
        event == RecvEvent::Failed ==> action == RelayAction::Stop,
{
    match event {
        RecvEvent::Data(n) => RelayAction::ForwardUpstream(n),
        RecvEvent::Closed => RelayAction::Stop,
        RecvEvent::Failed => RelayAction::Stop,
    }
}

/// Relay correctness: with one active local session, the bytes that the
/// session's chunks carry reach the remote side verbatim and in order — the
/// stream the upstream peer sees is exactly the stream that was sent in.
pub proof fn lemma_relay_order(chunks: Seq<Seq<u8>>)
    ensures
        stream_of(chunks.map_values(|c: Seq<u8>| relay_spec(c))) == stream_of(chunks),
    decreases chunks.len(),
{
    let relayed = chunks.map_values(|c: Seq<u8>| relay_spec(c));
    if chunks.len() == 0 {
        assert(relayed.len() == 0);
    } else {
        lemma_relay_order(chunks.drop_first());
        assert(relayed.drop_first() =~= chunks.drop_first().map_values(|c: Seq<u8>| relay_spec(c)));
        assert(relayed.first() == chunks.first());
    }
}

} // verus!
