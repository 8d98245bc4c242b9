//! The figures of a profiling report.
use vstd::prelude::*;

verus! {

/// The total number of cycles: instructions and system calls.
pub fn total_cycles(instructions: u64, syscalls: u64) -> (r: u64)
    requires
        instructions + syscalls <= u64::MAX,
    ensures
        r == instructions + syscalls,
{
    instructions + syscalls
}

/// The share of the gas that a section with the given cycles has, in proportion to all cycles.
pub fn gas_estimate(cycles: u64, total_gas: u64, total: u64) -> (r: u64)
    requires
        total > 0,
    ensures
        r as int == (cycles as int * total_gas as int / total as int) % 0x1_0000_0000_0000_0000,
{
    proof {
        assert(cycles as int * total_gas as int <= 0xffff_ffff_ffff_ffff * 0xffff_ffff_ffff_ffff)
            by (nonlinear_arith)
            requires
                0 <= cycles as int <= 0xffff_ffff_ffff_ffff,
                0 <= total_gas as int <= 0xffff_ffff_ffff_ffff,
        ;
        assert(cycles as int * total_gas as int >= 0) by (nonlinear_arith)
            requires
                0 <= cycles as int,
                0 <= total_gas as int,
        ;
    }
    let product: u128 = cycles as u128 * total_gas as u128;
    let share: u128 = product / total as u128;
    let low: u128 = share % 0x1_0000_0000_0000_0000u128;
    low as u64
}

/// The sections are in descending order of their cycles.
pub open spec fn descending(sections: Seq<(String, u64)>) -> bool {
    forall|i: int, j: int|
        0 <= i < j < sections.len() ==> (#[trigger] sections[i]).1 >= (#[trigger] sections[j]).1
}

/// The sections in descending order of their cycles.
pub fn sort_sections(sections: Vec<(String, u64)>) -> (r: Vec<(String, u64)>)
    ensures
        descending(r@),
        r@.to_multiset() == sections@.to_multiset(),
{
    let ghost all = sections@.to_multiset();
    let mut rest = sections;
    let mut sorted: Vec<(String, u64)> = Vec::new();
    proof {
        sorted@.to_multiset_ensures();
        assert(sorted@.to_multiset() =~= vstd::multiset::Multiset::empty());
    }
    assert(rest@.to_multiset().add(sorted@.to_multiset()) =~= all);
    while rest.len() > 0
        invariant
            descending(sorted@),
            rest@.to_multiset().add(sorted@.to_multiset()) =~= all,
        decreases rest@.len(),
    {
        let ghost rest_before = rest@;
        let ghost sorted_before = sorted@;
        let section = rest.pop().unwrap();
        assert(rest_before =~= rest@.push(section));
        let mut at: usize = 0;
        while at < sorted.len() && sorted[at].1 > section.1
            invariant
                at <= sorted@.len(),
                forall|k: int| 0 <= k < at ==> (#[trigger] sorted@[k]).1 > section.1,
            decreases sorted@.len() - at,
        {
            at = at + 1;
        }
        sorted.insert(at, section);
        proof {
            assert forall|i: int, j: int| 0 <= i < j < sorted@.len() implies (#[trigger] sorted@[i]).1
                >= (#[trigger] sorted@[j]).1 by {
                if i < at && j > at {
                    assert(sorted_before[i].1 >= sorted_before[j - 1].1);
                } else if i < at && j < at {
                    assert(sorted_before[i].1 >= sorted_before[j].1);
                } else if i > at {
                    assert(sorted_before[i - 1].1 >= sorted_before[j - 1].1);
                } else if i == at {
                    if at < j - 1 {
                        assert(sorted_before[at as int].1 >= sorted_before[j - 1].1);
                    }
                }
            }
            assert(sorted@ =~= sorted_before.insert(at as int, section));
            vstd::seq_lib::to_multiset_insert(sorted_before, at as int, section);
            vstd::seq_lib::to_multiset_build(rest@, section);
            assert(sorted@.to_multiset() =~= sorted_before.to_multiset().insert(section));
            assert(rest_before.to_multiset() =~= rest@.to_multiset().insert(section));
        }
    }
    proof {
        rest@.to_multiset_ensures();
        assert(rest@.to_multiset() =~= vstd::multiset::Multiset::empty());
    }
    assert(sorted@.to_multiset() =~= all);
    sorted
}

} // verus!
