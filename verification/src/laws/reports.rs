//! What the report of a profile shows.
use crate::report;
use vstd::prelude::*;

verus! {

/// The sections of a report are those that were measured; the first one has the most cycles, and
/// no section has more cycles than the one before it.
pub proof fn lemma_sorted(sections: Vec<(String, u64)>, r: Vec<(String, u64)>, i: int, j: int)
    requires
        call_ensures(report::sort_sections, (sections,), r),
        0 <= i < r@.len(),
        0 <= j < sections@.len(),
    ensures
        r@.to_multiset() == sections@.to_multiset(),
        r@.len() == sections@.len(),
        i > 0 ==> r@[i].1 <= r@[i - 1].1,
        sections@[j].1 <= r@[0].1,
{
    broadcast use vstd::seq_lib::group_to_multiset_ensures;

    assert(r@.to_multiset().len() == r@.len());
    assert(sections@.to_multiset().len() == sections@.len());
    assert(sections@.to_multiset().count(sections@[j]) > 0) by {
        assert(sections@.contains(sections@[j]));
    }
    assert(r@.contains(sections@[j]));
    let k = choose|k: int| 0 <= k < r@.len() && r@[k] == sections@[j];
    if k > 0 {
        assert(r@[0].1 >= r@[k].1);
    }
}

/// The cycles of a profile are its instructions and its system calls together.
pub proof fn lemma_total(instructions: u64, syscalls: u64, r: u64)
    requires
        instructions + syscalls <= u64::MAX,
        call_ensures(report::total_cycles, (instructions, syscalls), r),
    ensures
        r - syscalls == instructions,
{
}

/// The share of a section in the gas: the largest number that stands to all gas at most as its
/// cycles to all cycles.  The section with all cycles has all gas.
pub proof fn lemma_share(cycles: u64, gas: u64, total: u64, r: u64)
    requires
        0 < total,
        cycles <= total,
        call_ensures(report::gas_estimate, (cycles, gas, total), r),
    ensures
        r as int * total as int <= cycles as int * gas as int,
        (r as int + 1) * total as int > cycles as int * gas as int,
        cycles == total ==> r == gas,
{
    let t = total as int;
    let p = cycles as int * gas as int;
    assert(0 <= p <= t * gas as int) by (nonlinear_arith)
        requires
            p == cycles as int * gas as int,
            0 <= cycles as int <= t,
            0 <= gas as int,
    ;
    vstd::arithmetic::div_mod::lemma_fundamental_div_mod(p, t);
    let q = p / t;
    assert(0 <= q <= gas as int) by (nonlinear_arith)
        requires
            p == t * q + p % t,
            0 <= p % t < t,
            0 <= p <= t * gas as int,
            t > 0,
    ;
    assert(q * t <= p < (q + 1) * t) by (nonlinear_arith)
        requires
            p == t * q + p % t,
            0 <= p % t < t,
    ;
    if cycles == total {
        assert(q == gas as int) by (nonlinear_arith)
            requires
                q * t <= p < (q + 1) * t,
                p == t * gas as int,
                t > 0,
        ;
    }
}

} // verus!
