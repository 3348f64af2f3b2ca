//! What a latency client does: perform exactly `repeat` timed round trips.
//! Each iteration sends a fresh random payload, blocks for a full reply of
//! the same length, and checks the reply byte for byte against the payload.
//! A mismatch is a correctness fault in the transport under measurement,
//! never a transient error: the run must stop on it, loudly.

use vstd::prelude::*;

use crate::payload::generate_payload;

verus! {

/// The state of one measurement run: how many round trips remain and how
/// many completed with a byte-identical reply. Buffers are sized once, to
/// exactly `data_size` bytes, and reused across iterations.
pub struct LatencyRun {
    pub data_size: usize,
    pub remaining: usize,
    pub completed: usize,
}

impl LatencyRun {
    /// The iterations accounted for — completed plus remaining — fit the
    /// counter type, so completing one more can always be recorded.
    pub open spec fn wf(self) -> bool {
        self.completed + self.remaining <= usize::MAX
    }

    /// A run of `repeat` round trips of `data_size` bytes each, none done
    /// yet.
    pub fn new(data_size: usize, repeat: usize) -> (run: LatencyRun)
        ensures
            run.data_size == data_size,
            run.remaining == repeat,
            run.completed == 0,
            run.wf(),
    {
        LatencyRun { data_size, remaining: repeat, completed: 0 }
    }

    /// Whether the run has performed all its iterations.
    pub fn done(&self) -> (finished: bool)
        ensures
            finished == (self.remaining == 0),
    {
        self.remaining == 0
    }

    /// The payload for the next iteration: exactly `data_size` fresh random
    /// bytes.
    pub fn next_payload(&self) -> (payload: Vec<u8>)
        ensures
            payload@.len() == self.data_size,
    {
        generate_payload(self.data_size)
    }

    /// Account one round trip. The reply is accepted exactly when it equals
    /// the sent payload byte for byte; only then does the iteration count as
    /// completed. On a mismatch the run is left as it was, for the caller to
    /// abort with a fatal assertion.
    pub fn record_reply(&mut self, sent: &Vec<u8>, received: &Vec<u8>) -> (ok: bool)
        requires
            old(self).wf(),
            old(self).remaining > 0,
        ensures
            ok == (sent@ == received@),
            final(self).data_size == old(self).data_size,
            ok ==> final(self).remaining == old(self).remaining - 1,
            ok ==> final(self).completed == old(self).completed + 1,
            !ok ==> *final(self) == *old(self),
            final(self).wf(),
    {
        let ok = check_round_trip(sent, received);
        if ok {
            self.remaining = self.remaining - 1;
            self.completed = self.completed + 1;
        }
        ok
    }
}

/// Round-trip identity: the check succeeds exactly when the received buffer
/// equals the sent buffer, byte for byte — any difference, in length or in
/// content, fails it.
pub fn check_round_trip(sent: &Vec<u8>, received: &Vec<u8>) -> (ok: bool)
    ensures
        ok == (sent@ == received@),
{
    if sent.len() != received.len() {
        return false;
    }
    let mut i: usize = 0;
    while i < sent.len()
        invariant
            i <= sent.len(),
            sent.len() == received.len(),
            forall|k: int| 0 <= k < i ==> sent@[k] == received@[k],
        decreases sent.len() - i,
    {
        if sent[i] != received[i] {
            return false;
        }
        i = i + 1;
    }
    assert(sent@ =~= received@);
    true
}

} // verus!
