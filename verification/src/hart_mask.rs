//! A compact set of hart identifiers: a machine word of bits and the identifier
//! that bit zero stands for.

use vstd::prelude::*;

verus! {

/// Number of bits in a mask word.
pub const WORD_BITS: u64 = 64;

/// Largest number of harts the firmware manages.
pub const MAX_HART_COUNT: u64 = 4;

/// The mask word that conventionally selects every hart.
pub const ALL_HARTS: u64 = 0xffff_ffff_ffff_ffff;

#[derive(Clone, Copy, Debug, PartialEq, Eq, Structural)]
pub struct HartMask {
    pub mask: u64,
    pub mask_base: u64,
}

/// Whether bit `k` of `word` is one; false for `k` beyond the word.
pub open spec fn bit_of(word: u64, k: u64) -> bool {
    k < 64 && (word >> k) & 1 == 1
}

impl HartMask {
    /// Membership of `hart_id` in the set that the mask denotes.
    pub open spec fn contains(&self, hart_id: u64) -> bool {
        hart_id >= self.mask_base && bit_of(self.mask, (hart_id - self.mask_base) as u64)
    }

    pub fn new(mask: u64, mask_base: u64) -> (r: Self)
        ensures
            r.mask == mask,
            r.mask_base == mask_base,
    {
        Self { mask, mask_base }
    }

    pub fn is_set(&self, hart_id: u64) -> (r: bool)
        ensures
            r == self.contains(hart_id),
    {
        if hart_id < self.mask_base {
            false
        } else {
            let v: u64 = hart_id - self.mask_base;
            if v < WORD_BITS {
                let m: u64 = self.mask;
                assert(((m >> v) & 1 != 0) <==> ((m >> v) & 1 == 1)) by (bit_vector);
                (m >> v) & 1 != 0
            } else {
                false
            }
        }
    }

    /// The plain mask over harts `0..MAX_HART_COUNT`: bit `k` of the result is set
    /// exactly when hart `k` is selected and `k` is below the hart limit.
    pub fn normalize(&self) -> (r: u64)
        ensures
            forall|k: u64| bit_of(r, k) <==> (k < MAX_HART_COUNT && self.contains(k)),
            r < 16,
    {
        let mut ret: u64 = 0;
        let mut i: u64 = 0;
        proof {
            assert(0 < (1u64 << 0u64)) by (bit_vector);
            assert(forall|k: u64| !bit_of(0u64, k)) by {
                assert(forall|k: u64| k < 64 ==> (0u64 >> k) & 1 == 0) by (bit_vector);
            }
        }
        while i < MAX_HART_COUNT
            invariant
                i <= MAX_HART_COUNT,
                ret < (1u64 << i),
                forall|k: u64| bit_of(ret, k) <==> (k < i && self.contains(k)),
            decreases MAX_HART_COUNT - i,
        {
            let b: u64 = if self.is_set(i) { 1 } else { 0 };
            let next: u64 = ret | (b << i);
            proof {
                let r0 = ret;
                assert(forall|k: u64|
                    k < 64 ==> ((((r0 | (b << i)) >> k) & 1 == 1) <==> ((r0 >> k) & 1 == 1 || (b
                        == 1 && k == i)))) by (bit_vector)
                    requires
                        i < 4,
                        b <= 1,
                ;
                assert((r0 | (b << i)) < (1u64 << ((i + 1) as u64))) by (bit_vector)
                    requires
                        i < 4,
                        b <= 1,
                        r0 < (1u64 << i),
                ;
                assert forall|k: u64| bit_of(next, k) <==> (k < i + 1 && self.contains(k)) by {
                    if k < 64 {
                        assert(bit_of(next, k) <==> (bit_of(r0, k) || (b == 1 && k == i)));
                    }
                }
            }
            ret = next;
            i = i + 1;
        }
        assert((1u64 << 4u64) == 16) by (bit_vector);
        ret
    }
}

/// The empty mask selects no hart.
pub proof fn lemma_empty_mask_selects_none(base: u64, hart_id: u64)
    ensures
        !(HartMask { mask: 0, mask_base: base }).contains(hart_id),
{
    assert(forall|k: u64| k < 64 ==> (0u64 >> k) & 1 == 0) by (bit_vector);
}

/// Inside the window `[base, base + WORD_BITS)` membership is the bit at the
/// hart's distance from the base; outside the window no hart is selected.
pub proof fn lemma_window(m: HartMask, hart_id: u64)
    ensures
        m.mask_base <= hart_id && hart_id - m.mask_base < WORD_BITS ==> (m.contains(hart_id) <==> (
        m.mask >> ((hart_id - m.mask_base) as u64)) & 1 == 1),
        hart_id < m.mask_base || hart_id - m.mask_base >= WORD_BITS ==> !m.contains(hart_id),
{
}

} // verus!
