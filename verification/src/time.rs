//! Monotonic millisecond clock.
//!
//! The counter is composed of four 32-bit words, least significant first,
//! the way a platform without a native wide integer has to hold it. One
//! hardware timer tick advances it by exactly one millisecond, with the
//! carry propagated explicitly from word to word. The value never
//! decreases: when even the widest word is exhausted the counter saturates
//! and the tick reports the overflow, so the caller can halt into a safe
//! state instead of trusting timing that has silently wrapped.
//!
//! The interrupt discipline around the counter — ticks arrive from the
//! timer interrupt, reads from any context, all under a critical section —
//! belongs to the runtime that owns the singleton; the counter itself is a
//! plain value with a tick and a read.

use vstd::prelude::*;

verus! {

/// Value of the first `n` counter words, least significant first:
/// `words[0] + words[1]*2^32 + ... ` up to word `n - 1`.
pub open spec fn prefix_value(words: Seq<u32>, n: int) -> int
    decreases n,
{
    if n <= 0 {
        0
    } else {
        prefix_value(words, n - 1) + words[n - 1] * word_weight(n - 1)
    }
}

/// Weight of counter word `i`: `2^(32*i)`.
pub open spec fn word_weight(i: int) -> int {
    if i <= 0 {
        1
    } else if i == 1 {
        0x1_0000_0000
    } else if i == 2 {
        0x1_0000_0000_0000_0000
    } else if i == 3 {
        0x1_0000_0000_0000_0000_0000_0000
    } else {
        0x1_0000_0000_0000_0000_0000_0000_0000_0000int
    }
}

/// Each word carries 2^32 times the weight of the one below it.
proof fn lemma_word_weight_step(i: int)
    requires
        0 <= i <= 3,
    ensures
        word_weight(i + 1) == 0x1_0000_0000 * word_weight(i),
{
}

/// The value of `n` words is non-negative and below the weight of word `n`.
proof fn lemma_prefix_value_bounds(words: Seq<u32>, n: int)
    requires
        0 <= n <= 4,
        words.len() >= n,
    ensures
        0 <= prefix_value(words, n) < word_weight(n),
    decreases n,
{
    if n > 0 {
        lemma_prefix_value_bounds(words, n - 1);
        lemma_word_weight_step(n - 1);
        assert(words[n - 1] * word_weight(n - 1) <= 0xFFFF_FFFF * word_weight(n - 1))
            by (nonlinear_arith)
            requires
                0 <= words[n - 1] <= 0xFFFF_FFFF,
                word_weight(n - 1) > 0;
        assert(words[n - 1] * word_weight(n - 1) >= 0) by (nonlinear_arith)
            requires
                words[n - 1] >= 0,
                word_weight(n - 1) > 0;
    }
}

/// The value of the first `n` words depends on those words alone.
proof fn lemma_prefix_value_congruence(s1: Seq<u32>, s2: Seq<u32>, n: int)
    requires
        forall|j: int| 0 <= j < n ==> s1[j] == s2[j],
    ensures
        prefix_value(s1, n) == prefix_value(s2, n),
    decreases n,
{
    if n > 0 {
        lemma_prefix_value_congruence(s1, s2, n - 1);
    }
}

/// What one tick does to the counter value: one more millisecond, except
/// that a counter already at its ceiling stays there.
pub open spec fn ticked_value(v: int) -> int {
    if v < u128::MAX {
        v + 1
    } else {
        v
    }
}

/// Counter value after `n` ticks of a counter that started at zero.
pub open spec fn value_after_ticks(n: nat) -> int
    decreases n,
{
    if n == 0 {
        0
    } else {
        ticked_value(value_after_ticks((n - 1) as nat))
    }
}

/// Law: starting from zero, after exactly `n` ticks the clock reads `n`
/// milliseconds, for every count the counter can hold.
pub proof fn lemma_ticks_from_zero(n: nat)
    requires
        n <= u128::MAX,
    ensures
        value_after_ticks(n) == n,
    decreases n,
{
    if n > 0 {
        lemma_ticks_from_zero((n - 1) as nat);
    }
}

/// Free-running monotonic counter of elapsed milliseconds since boot, wide
/// enough never to wrap within any device lifetime.
pub struct MonotonicClock {
    words: [u32; 4],
}

impl MonotonicClock {
    /// The milliseconds the counter holds, as one mathematical value.
    pub closed spec fn value(self) -> int {
        prefix_value(self.words@, 4)
    }

    /// A fresh counter, reading zero; made before the timer is armed.
    pub fn new() -> (c: MonotonicClock)
        ensures
            c.value() == 0,
    {
        let c = MonotonicClock { words: [0, 0, 0, 0] };
        proof {
            assert(c.value() == 0) by {
                assert(prefix_value(c.words@, 0) == 0);
                assert(prefix_value(c.words@, 1) == 0);
                assert(prefix_value(c.words@, 2) == 0);
                assert(prefix_value(c.words@, 3) == 0);
            }
        }
        c
    }

    /// A counter holding the given words, least significant first.
    pub fn from_words(words: [u32; 4]) -> (c: MonotonicClock)
        ensures
            c.value() == words@[0] + words@[1] * 0x1_0000_0000
                + words@[2] * 0x1_0000_0000_0000_0000
                + words@[3] * 0x1_0000_0000_0000_0000_0000_0000,
    {
        let c = MonotonicClock { words };
        proof {
            assert(prefix_value(c.words@, 0) == 0);
            assert(prefix_value(c.words@, 1) == c.words@[0]);
            assert(prefix_value(c.words@, 2) == prefix_value(c.words@, 1) + c.words@[1]
                * 0x1_0000_0000);
            assert(prefix_value(c.words@, 3) == prefix_value(c.words@, 2) + c.words@[2]
                * 0x1_0000_0000_0000_0000);
            assert(prefix_value(c.words@, 4) == prefix_value(c.words@, 3) + c.words@[3]
                * 0x1_0000_0000_0000_0000_0000_0000);
        }
        c
    }

    /// Read the counter as a single, internally consistent snapshot.
    /// Reading never changes the counter, so two reads in program order
    /// with only ticks between them never go backwards.
    pub fn current_millis(&self) -> (r: u128)
        ensures
            r == self.value(),
    {
        let w0 = self.words[0] as u128;
        let w1 = self.words[1] as u128;
        let w2 = self.words[2] as u128;
        let w3 = self.words[3] as u128;
        let r = w0 + w1 * 0x1_0000_0000 + w2 * 0x1_0000_0000_0000_0000 + w3
            * 0x1_0000_0000_0000_0000_0000_0000;
        proof {
            assert(prefix_value(self.words@, 0) == 0);
            assert(prefix_value(self.words@, 1) == self.words@[0]);
            assert(prefix_value(self.words@, 2) == prefix_value(self.words@, 1)
                + self.words@[1] * 0x1_0000_0000);
            assert(prefix_value(self.words@, 3) == prefix_value(self.words@, 2)
                + self.words@[2] * 0x1_0000_0000_0000_0000);
            assert(prefix_value(self.words@, 4) == prefix_value(self.words@, 3)
                + self.words@[3] * 0x1_0000_0000_0000_0000_0000_0000);
        }
        r
    }

    /// Advance the counter by exactly one millisecond, carrying into wider
    /// words as narrow ones wrap. Returns false — leaving the counter
    /// untouched — only when even the widest word is exhausted; that read
    /// is the overflow report the caller must treat as fatal. The counter
    /// never decreases.
    pub fn time_tick(&mut self) -> (ok: bool)
        ensures
            final(self).value() == ticked_value(old(self).value()),
            ok == (old(self).value() < u128::MAX),
            ok ==> final(self).value() == old(self).value() + 1,
            !ok ==> final(self).value() == old(self).value(),
            final(self).value() >= old(self).value(),
    {
        proof {
            lemma_prefix_value_bounds(self.words@, 4);
        }
        if self.words[0] == u32::MAX && self.words[1] == u32::MAX && self.words[2] == u32::MAX
            && self.words[3] == u32::MAX {
            proof {
                assert(prefix_value(self.words@, 0) == 0);
                assert(prefix_value(self.words@, 1) == 0xFFFF_FFFF);
                assert(prefix_value(self.words@, 2) == prefix_value(self.words@, 1)
                    + 0xFFFF_FFFFu32 * 0x1_0000_0000);
                assert(prefix_value(self.words@, 3) == prefix_value(self.words@, 2)
                    + 0xFFFF_FFFFu32 * 0x1_0000_0000_0000_0000);
                assert(prefix_value(self.words@, 4) == prefix_value(self.words@, 3)
                    + 0xFFFF_FFFFu32 * 0x1_0000_0000_0000_0000_0000_0000);
            }
            return false;
        }
        let ghost old_words = self.words@;
        let mut carry: bool = true;
        let mut i: usize = 0;
        while i < 4
            invariant
                0 <= i <= 4,
                self.words@.len() == 4,
                old_words.len() == 4,
                forall|j: int| i <= j < 4 ==> self.words@[j] == old_words[j],
                prefix_value(self.words@, i as int) + (if carry {
                    word_weight(i as int)
                } else {
                    0
                }) == prefix_value(old_words, i as int) + 1,
                carry ==> forall|j: int| 0 <= j < i ==> old_words[j] == u32::MAX,
            decreases 4 - i,
        {
            let ghost prev_words = self.words@;
            let ghost prev_carry = carry;
            let w = self.words[i];
            if carry {
                if w == u32::MAX {
                    self.words[i] = 0;
                } else {
                    self.words[i] = w + 1;
                    carry = false;
                }
            }
            proof {
                lemma_prefix_value_congruence(self.words@, prev_words, i as int);
                lemma_word_weight_step(i as int);
                assert(prefix_value(self.words@, i + 1) == prefix_value(self.words@, i as int)
                    + self.words@[i as int] * word_weight(i as int));
                assert(prefix_value(old_words, i + 1) == prefix_value(old_words, i as int)
                    + old_words[i as int] * word_weight(i as int));
                if prev_carry {
                    if w == u32::MAX {
                        assert(0xFFFF_FFFF * word_weight(i as int) + word_weight(i as int)
                            == 0x1_0000_0000 * word_weight(i as int)) by (nonlinear_arith);
                    } else {
                        assert((w + 1) * word_weight(i as int) == w * word_weight(i as int)
                            + word_weight(i as int)) by (nonlinear_arith);
                    }
                }
            }
            i = i + 1;
        }
        proof {
            if carry {
                assert(old_words[0] == u32::MAX && old_words[1] == u32::MAX && old_words[2]
                    == u32::MAX && old_words[3] == u32::MAX);
            }
            lemma_prefix_value_bounds(self.words@, 4);
        }
        true
    }
}

} // verus!
