use vstd::prelude::*;

verus! {

/// The sequence number handed out `k` calls after the counter stood at `start`.
pub open spec fn seq_value(start: u8, k: nat) -> u8 {
    ((start + k) % 256) as u8
}

/// Relies on rand::random::<u8>: some byte; nothing is known of which.
#[verifier::external_body]
fn random_byte() -> (r: u8) {
    rand::random::<u8>()
}

/// An 8-bit sequence counter that hands out its value and then steps it, wrapping.
#[derive(Debug, Clone, Copy, PartialEq, Eq, Structural)]
pub struct SeqAllocator {
    /// The value the next call hands out.
    pub next: u8,
}

impl SeqAllocator {
    /// A counter whose first value is `start`.
    pub fn new(start: u8) -> (r: SeqAllocator)
        ensures
            r.next == start,
    {
        SeqAllocator { next: start }
    }

    /// A counter whose first value is drawn at random.
    pub fn new_random() -> (r: SeqAllocator) {
        SeqAllocator { next: random_byte() }
    }

    /// Returns the current value and steps the counter by one, modulo 256.
    pub fn next_seq_id(&mut self) -> (r: u8)
        ensures
            r == old(self).next,
            final(self).next == seq_value(old(self).next, 1),
    {
        let r = self.next;
        self.next = self.next.wrapping_add(1);
        r
    }
}

/// Stepping the counter `k` times and then once more is stepping it `k + 1` times.
pub proof fn lemma_seq_step(start: u8, k: nat)
    ensures
        seq_value(seq_value(start, k), 1) == seq_value(start, k + 1),
{
}

/// Any 256 consecutive values of the counter are distinct.
pub proof fn lemma_seq_distinct(start: u8, i: nat, j: nat)
    requires
        i < j < 256,
    ensures
        seq_value(start, i) != seq_value(start, j),
{
}

/// The counter comes back to its value after 256 steps.
pub proof fn lemma_seq_wraps(start: u8, k: nat)
    ensures
        seq_value(start, k + 256) == seq_value(start, k),
{
}

} // verus!
