//! Random payloads for the measurement roles. Each iteration of a latency
//! client fills its send buffer with fresh random bytes; the randomness only
//! avoids compressibility artifacts on the measured path, so nothing is
//! assumed of the bytes beyond how many there are.

use vstd::prelude::*;

use rand::RngCore;

verus! {

/// Relies on rand::thread_rng and RngCore::fill_bytes: fills the whole
/// slice in place with random bytes. The slice's length cannot change; of
/// the bytes themselves nothing is promised.
#[verifier::external_body]
fn fill_random_bytes(buf: &mut Vec<u8>)
    ensures
        final(buf)@.len() == old(buf)@.len(),
{
    rand::thread_rng().fill_bytes(buf.as_mut_slice())
}

/// A fresh payload of exactly `data_size` random bytes.
pub fn generate_payload(data_size: usize) -> (payload: Vec<u8>)
    ensures
        payload@.len() == data_size,
{
    let mut payload: Vec<u8> = Vec::new();
    let mut i: usize = 0;
    while i < data_size
        invariant
            i <= data_size,
            payload@.len() == i,
        decreases data_size - i,
    {
        payload.push(0u8);
        i = i + 1;
    }
    fill_random_bytes(&mut payload);
    payload
}

} // verus!
