//! Numbers drawn at random.

use vstd::prelude::*;

verus! {

/// Calls `rand::thread_rng` and `RngCore::next_u32`: one word from the
/// thread's generator. Nothing is promised of the word. Where the operating
/// system gives the generator no seed, the call panics.
#[verifier::external_body]
pub(crate) fn thread_random_u32() -> (r: u32) {
    rand::RngCore::next_u32(&mut rand::thread_rng())
}

/// The hundred and sixty words of which ten recovery keys are made, each
/// drawn from the thread's generator.
pub fn draw_key_words() -> (r: [u32; 160]) {
    let mut words: [u32; 160] = [0u32; 160];
    let mut i: usize = 0;
    while i < 160
        invariant
            i <= 160,
        decreases 160 - i,
    {
        words[i] = thread_random_u32();
        i += 1;
    }
    words
}

/// A list of `n` bytes, each the low byte of a word drawn from the thread's
/// generator.
pub fn random_bytes(n: usize) -> (r: Vec<u8>)
    ensures
        r@.len() == n,
{
    let mut bytes: Vec<u8> = Vec::new();
    while bytes.len() < n
        invariant
            bytes@.len() <= n,
        decreases n - bytes@.len(),
    {
        let word = thread_random_u32();
        bytes.push(#[verifier::truncate] (word as u8));
    }
    bytes
}

/// Calls `OsRng.next_u32` of `rand_core`: one word from the operating
/// system's generator. Nothing is promised of the word. Where the operating
/// system gives no random bytes, the call panics.
#[verifier::external_body]
pub(crate) fn os_random_u32() -> (r: u32) {
    rand_core::RngCore::next_u32(&mut rand_core::OsRng)
}

} // verus!
