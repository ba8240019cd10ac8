//! Sizing compute dispatches and the storage they work on.

use vstd::prelude::*;
use vstd::arithmetic::div_mod::lemma_fundamental_div_mod_converse;

verus! {

/// Particles that the particle simulation holds.
pub const PARTICLE_COUNT: u32 = 1024;

/// Invocations in one workgroup of the particle shaders.
pub const WORKGROUP_SIZE: u32 = 64;

/// The least number of groups of `group_size` that hold `items` items.
pub open spec fn groups_for(items: int, group_size: int) -> int
    recommends
        0 <= items,
        0 < group_size,
{
    (items + group_size - 1) / group_size
}

/// `groups_for` many groups hold all items, and one group fewer does not.
pub proof fn lemma_groups_for(items: int, group_size: int)
    requires
        0 <= items,
        0 < group_size,
    ensures
        groups_for(items, group_size) * group_size >= items,
        (groups_for(items, group_size) - 1) * group_size < items,
        groups_for(items, group_size) == items / group_size + if items % group_size > 0 {
            1int
        } else {
            0int
        },
{
    let q = items / group_size;
    let r = items % group_size;
    assert(items == q * group_size + r && 0 <= r < group_size) by (nonlinear_arith)
        requires
            q == items / group_size,
            r == items % group_size,
            0 < group_size,
    ;
    if r == 0 {
        lemma_fundamental_div_mod_converse(items + group_size - 1, group_size, q, group_size - 1);
        assert((q - 1) * group_size == q * group_size - group_size) by (nonlinear_arith);
    } else {
        assert(items + group_size - 1 == (q + 1) * group_size + (r - 1)) by (nonlinear_arith)
            requires
                items == q * group_size + r,
        ;
        lemma_fundamental_div_mod_converse(items + group_size - 1, group_size, q + 1, r - 1);
        assert((q + 1) * group_size == q * group_size + group_size) by (nonlinear_arith);
    }
}

/// Workgroups to dispatch so that every one of `items` items gets an
/// invocation: `items / group_size`, rounded up.
pub fn workgroup_count(items: u32, group_size: u32) -> (groups: u32)
    requires
        group_size > 0,
    ensures
        groups == groups_for(items as int, group_size as int),
{
    proof {
        lemma_groups_for(items as int, group_size as int);
    }
    let whole: u32 = items / group_size;
    if items % group_size > 0 {
        proof {
            assert(whole * group_size <= items) by (nonlinear_arith)
                requires
                    whole == items as int / group_size as int,
                    0 < group_size,
                    0 <= items,
            ;
            assert(whole < u32::MAX) by (nonlinear_arith)
                requires
                    whole * group_size <= items,
                    items <= u32::MAX,
                    items % group_size > 0,
                    whole == items as int / group_size as int,
                    0 < group_size,
            ;
        }
        whole + 1
    } else {
        whole
    }
}

/// Bytes of a buffer that stores `count` records of `record_size` bytes, or
/// `None` where that many bytes cannot be counted in 64 bits.
pub fn storage_size(record_size: u64, count: u32) -> (size: Option<u64>)
    ensures
        match size {
            Some(bytes) => bytes == record_size * count,
            None => record_size * count > u64::MAX,
        },
{
    record_size.checked_mul(count as u64)
}

} // verus!
