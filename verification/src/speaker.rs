//! Speaker arrangements: a 64-bit bitmask with one bit per speaker
//! position.  The channel count of a bus is the population count of its
//! arrangement mask.

use vstd::prelude::*;

verus! {

/// No speakers.
pub const EMPTY: u64 = 0;

/// The single mono speaker bit.
pub const MONO: u64 = 1u64 << 19;

/// Front left and front right.
pub const STEREO: u64 = 3;

/// The number of set bits of `arr`.
pub open spec fn pop_count(arr: u64) -> nat
    decreases arr,
{
    if arr == 0 {
        0
    } else {
        (arr % 2) as nat + pop_count(arr / 2)
    }
}

proof fn lemma_pop_count_bound(x: u64, w: nat)
    requires
        x < vstd::arithmetic::power2::pow2(w),
    ensures
        pop_count(x) <= w,
    decreases w,
{
    if w == 0 {
        vstd::arithmetic::power2::lemma_pow2(0);
        vstd::arithmetic::power::lemma_pow0(2);
    } else {
        vstd::arithmetic::power2::lemma_pow2_unfold(w);
        lemma_pop_count_bound(x / 2, (w - 1) as nat);
    }
}

/// The channel count a speaker-arrangement bitmask describes: its
/// population count.
pub fn get_channel_count(arr: u64) -> (count: i32)
    ensures
        count == pop_count(arr),
{
    proof {
        vstd::arithmetic::power2::lemma2_to64();
        lemma_pop_count_bound(arr, 64);
    }
    let mut a: u64 = arr;
    let mut count: i32 = 0;
    while a != 0
        invariant
            count + pop_count(a) == pop_count(arr),
            count >= 0,
            pop_count(arr) <= 64,
        decreases a,
    {
        proof {
            assert(pop_count(a) == a % 2 + pop_count(a / 2));
        }
        if a & 1 == 1 {
            proof {
                assert(a % 2 == 1) by (bit_vector)
                    requires
                        a & 1 == 1,
                ;
            }
            count += 1;
        } else {
            proof {
                assert(a % 2 == 0) by (bit_vector)
                    requires
                        a & 1 != 1,
                ;
            }
        }
        proof {
            assert(a >> 1 == a / 2) by (bit_vector);
        }
        a >>= 1;
    }
    count
}

} // verus!
