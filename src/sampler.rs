//! Turning one round of raw readings into percentages and disk totals.

use vstd::arithmetic::div_mod::lemma_div_is_ordered;
use vstd::prelude::*;

verus! {

/// One hundred percent, in basis points (hundredths of a percent): the unit
/// of every percentage sample.
pub const FULL_SCALE: u64 = 10000;

/// The RAM percentage, in basis points, of `used` out of `total`, rounded
/// down. A zero total gives zero rather than a division by zero; a reading
/// with more used than total is capped at one hundred percent.
pub open spec fn ram_percent_spec(used: nat, total: nat) -> nat {
    if total == 0 {
        0
    } else if used >= total {
        FULL_SCALE as nat
    } else {
        (used * FULL_SCALE as nat) / total
    }
}

/// Computes the RAM percentage of a memory reading, in basis points.
pub fn ram_percent(used: u64, total: u64) -> (r: u64)
    ensures
        r == ram_percent_spec(used as nat, total as nat),
        r <= FULL_SCALE,
        total == 0 ==> r == 0,
{
    if total == 0 {
        0
    } else if used >= total {
        FULL_SCALE
    } else {
        assert((used as int) * 10000 <= u64::MAX as int * 10000) by (nonlinear_arith);
        let prod: u128 = (used as u128) * (FULL_SCALE as u128);
        let q: u128 = prod / (total as u128);
        proof {
            lemma_div_is_ordered(used * FULL_SCALE, total * FULL_SCALE, total as int);
            assert((total * FULL_SCALE) / (total as int) == FULL_SCALE) by (nonlinear_arith)
                requires
                    total > 0,
            ;
            assert(used * FULL_SCALE <= total * FULL_SCALE) by (nonlinear_arith)
                requires
                    used < total,
            ;
        }
        q as u64
    }
}

/// A CPU utilisation reading in basis points, capped at one hundred percent.
pub open spec fn cpu_percent_spec(reading: nat) -> nat {
    if reading > FULL_SCALE {
        FULL_SCALE as nat
    } else {
        reading
    }
}

/// Caps a CPU utilisation reading, in basis points, at one hundred percent.
pub fn cpu_percent(reading: u64) -> (r: u64)
    ensures
        r == cpu_percent_spec(reading as nat),
        r <= FULL_SCALE,
{
    if reading > FULL_SCALE {
        FULL_SCALE
    } else {
        reading
    }
}

/// What one disk reports: its size and the space still free, in bytes.
#[derive(Clone, Copy, Debug, PartialEq, Eq)]
pub struct DiskSpace {
    pub total: u64,
    pub available: u64,
}

/// Space summed over all disks, in bytes; each sum saturates at `u64::MAX`.
#[derive(Clone, Copy, Debug, PartialEq, Eq)]
pub struct DiskUsage {
    pub total: u64,
    pub used: u64,
    pub available: u64,
}

/// The used space of one disk: its size less what is free, or zero when a
/// disk reports more free space than its size.
pub open spec fn disk_used(d: DiskSpace) -> nat {
    if d.available <= d.total {
        (d.total - d.available) as nat
    } else {
        0
    }
}

pub open spec fn sum_total(ds: Seq<DiskSpace>) -> nat
    decreases ds.len(),
{
    if ds.len() == 0 {
        0
    } else {
        sum_total(ds.drop_last()) + ds.last().total as nat
    }
}

pub open spec fn sum_available(ds: Seq<DiskSpace>) -> nat
    decreases ds.len(),
{
    if ds.len() == 0 {
        0
    } else {
        sum_available(ds.drop_last()) + ds.last().available as nat
    }
}

pub open spec fn sum_used(ds: Seq<DiskSpace>) -> nat
    decreases ds.len(),
{
    if ds.len() == 0 {
        0
    } else {
        sum_used(ds.drop_last()) + disk_used(ds.last())
    }
}

/// `x` capped at `u64::MAX`.
pub open spec fn cap_u64(x: nat) -> u64 {
    if x > u64::MAX {
        u64::MAX
    } else {
        x as u64
    }
}

/// Sums size, used and free space over every disk reported.
pub fn disk_usage(disks: &Vec<DiskSpace>) -> (r: DiskUsage)
    ensures
        r.total == cap_u64(sum_total(disks@)),
        r.used == cap_u64(sum_used(disks@)),
        r.available == cap_u64(sum_available(disks@)),
{
    let mut total: u64 = 0;
    let mut used: u64 = 0;
    let mut available: u64 = 0;
    let mut i: usize = 0;
    while i < disks.len()
        invariant
            i <= disks@.len(),
            total == cap_u64(sum_total(disks@.subrange(0, i as int))),
            used == cap_u64(sum_used(disks@.subrange(0, i as int))),
            available == cap_u64(sum_available(disks@.subrange(0, i as int))),
        decreases disks@.len() - i,
    {
        let d = disks[i];
        let d_used: u64 = if d.available <= d.total {
            d.total - d.available
        } else {
            0
        };
        proof {
            let next = disks@.subrange(0, i + 1);
            assert(next.drop_last() =~= disks@.subrange(0, i as int));
            assert(next.last() == d);
        }
        total = total.saturating_add(d.total);
        used = used.saturating_add(d_used);
        available = available.saturating_add(d.available);
        i = i + 1;
    }
    assert(disks@.subrange(0, disks@.len() as int) =~= disks@);
    DiskUsage { total, used, available }
}

} // verus!
