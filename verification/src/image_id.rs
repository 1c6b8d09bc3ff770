//! Kitty image ids for images that are not cached: a per-process base in the lower 24 bits
//! (under tmux the id travels as a 24-bit foreground colour), plus the page number.
use vstd::prelude::*;

verus! {

/// The multiplier of the process-id/time mix.
pub const ID_MIX_MULTIPLIER: u64 = 6364136223846793005u64;

/// One past the largest base; the ids from here up to `0xFF_FFFF` are left for page offsets.
pub const ID_BASE_LIMIT: u32 = 0x00FF_F000u32;

/// The 64-bit mix of process id and time: `pid * ID_MIX_MULTIPLIER + nanos`, modulo 2^64,
/// with the time taken modulo 2^64 as well.
pub open spec fn id_mix(pid: u32, nanos: u128) -> nat {
    (((pid as nat) * (ID_MIX_MULTIPLIER as nat)) % 0x1_0000_0000_0000_0000 + (nanos as nat)
        % 0x1_0000_0000_0000_0000) % 0x1_0000_0000_0000_0000
}

/// The per-process base of image ids: the low 24 bits of the mix, reduced below
/// `ID_BASE_LIMIT`, and 1 in place of 0.
pub open spec fn image_id_base_spec(pid: u32, nanos: u128) -> u32 {
    let low = (id_mix(pid, nanos) % 0x100_0000) % (ID_BASE_LIMIT as nat);
    if low == 0 {
        1
    } else {
        low as u32
    }
}

/// Derives the per-process base of image ids from the process id and the time since the Unix
/// epoch in nanoseconds, so that several instances sharing a terminal do not collide.
pub fn image_id_base(pid: u32, nanos: u128) -> (base: u32)
    ensures
        base == image_id_base_spec(pid, nanos),
        1 <= base < ID_BASE_LIMIT,
        ({
            let mixed = ((pid as int) * 6364136223846793005 + (nanos as int))
                % 0x1_0000_0000_0000_0000;
            let low = (mixed % 0x100_0000) % 0xFF_F000;
            base == if low == 0 {
                1
            } else {
                low
            }
        }),
{
    let p: u64 = pid as u64;
    let t: u64 = nanos as u64;
    let mixed: u64 = p.wrapping_mul(ID_MIX_MULTIPLIER).wrapping_add(t);
    let low: u32 = (mixed & 0x00FF_FFFFu64) as u32;
    let reduced: u32 = low % ID_BASE_LIMIT;
    let base: u32 = if reduced < 1 {
        1
    } else {
        reduced
    };
    proof {
        assert(t == nanos % 0x1_0000_0000_0000_0000) by (bit_vector)
            requires
                t == nanos as u64,
        ;
        let m: nat = ((p as nat) * (ID_MIX_MULTIPLIER as nat)) % 0x1_0000_0000_0000_0000;
        assert(mixed as nat == (m + t as nat) % 0x1_0000_0000_0000_0000);
        assert(mixed & 0x00FF_FFFFu64 == mixed % 0x100_0000) by (bit_vector);
        lemma_id_mix_formula(pid, nanos);
    }
    base
}

/// The id of the one-off image of page `page_num`: the base plus the page number (truncated to
/// 32 bits), saturating at `u32::MAX`.
pub open spec fn dynamic_image_id_spec(id_base: u32, page_num: usize) -> u32 {
    let sum = id_base + (page_num as u32);
    if sum > u32::MAX {
        u32::MAX
    } else {
        sum as u32
    }
}

/// The id of the one-off image of page `page_num`.
pub fn dynamic_image_id(id_base: u32, page_num: usize) -> (id: u32)
    requires
        id_base != 0,
    ensures
        id == dynamic_image_id_spec(id_base, page_num),
        id != 0,
{
    id_base.saturating_add(page_num as u32)
}

/// Every base leaves room for page offsets below `0x1000`: the ids of those pages stay nonzero
/// and within the 24 bits that a foreground colour carries.
pub proof fn lemma_page_ids_fit_in_24_bits(pid: u32, nanos: u128, page_num: usize)
    requires
        page_num < 0x1000,
    ensures
        1 <= dynamic_image_id_spec(image_id_base_spec(pid, nanos), page_num) < 0x100_0000,
{
    let base = image_id_base_spec(pid, nanos);
    assert((page_num as u32) == page_num);
}

/// The mix is the product of pid and multiplier plus the time, all modulo 2^64.
pub proof fn lemma_id_mix_formula(pid: u32, nanos: u128)
    ensures
        id_mix(pid, nanos) == ((pid as int) * 6364136223846793005 + (nanos as int))
            % 0x1_0000_0000_0000_0000,
{
    vstd::arithmetic::div_mod::lemma_add_mod_noop(
        (pid as int) * 6364136223846793005,
        nanos as int,
        0x1_0000_0000_0000_0000,
    );
}

/// The multiplier is odd, hence invertible modulo 2^64: multiplying back by its inverse
/// recovers any 64-bit value.
proof fn lemma_multiplier_invertible(p: u64)
    ensures
        (((p as nat) * 6364136223846793005) % 0x1_0000_0000_0000_0000) * 13877824140714322085
            % 0x1_0000_0000_0000_0000 == p,
{
    let m: u64 = #[verifier::truncate] ((p * 6364136223846793005u64) as u64);
    assert(m == (p * 6364136223846793005u64) % 0x1_0000_0000_0000_0000) by (bit_vector)
        requires
            m == (p * 6364136223846793005u64) as u64,
    ;
    assert((m * 13877824140714322085u64) as u64 == p) by (bit_vector)
        requires
            m == (p * 6364136223846793005u64) as u64,
    ;
    assert((m * 13877824140714322085u64) as u64 == (m * 13877824140714322085u64)
        % 0x1_0000_0000_0000_0000) by (bit_vector);
}

/// At a given time, distinct process ids give distinct mixes: the whole 32-bit pid enters the
/// mix, so two processes started in the same nanosecond still get different id bases unless
/// the low 24 bits of their mixes happen to agree.
pub proof fn lemma_mix_distinguishes_pids(p1: u32, p2: u32, nanos: u128)
    requires
        p1 != p2,
    ensures
        id_mix(p1, nanos) != id_mix(p2, nanos),
{
    let big: nat = 0x1_0000_0000_0000_0000;
    let a1 = ((p1 as nat) * (ID_MIX_MULTIPLIER as nat)) % big;
    let a2 = ((p2 as nat) * (ID_MIX_MULTIPLIER as nat)) % big;
    let b = (nanos as nat) % big;
    lemma_multiplier_invertible(p1 as u64);
    lemma_multiplier_invertible(p2 as u64);
    assert(a1 != a2);
    assert(a1 < big && a2 < big && b < big);
    assert((a1 + b) % big != (a2 + b) % big) by {
        if a1 + b < big {
            assert((a1 + b) % big == a1 + b);
        } else {
            assert((a1 + b) % big == a1 + b - big);
        }
        if a2 + b < big {
            assert((a2 + b) % big == a2 + b);
        } else {
            assert((a2 + b) % big == a2 + b - big);
        }
    }
}

} // verus!
