//! Number of logical processors that are available, over all processor groups.
//!
//! On Windows the system may report the first processor group only, which holds at most 64
//! processors. There the counts of all groups are added up.

use vstd::prelude::*;

verus! {

/// Sum of the processor counts of all groups.
pub open spec fn total(counts: Seq<u32>) -> nat
    decreases counts.len(),
{
    if counts.len() == 0 {
        0
    } else {
        total(counts.drop_last()) + counts.last() as nat
    }
}

/// Number of available processors: the sum over the groups, where there are groups (`group_counts`)
/// and the sum is not zero; else what the standard library reported; and if it reported nothing, the
/// number of processors that were detected.
pub open spec fn parallelism(
    group_counts: Option<Seq<u32>>,
    reported: Option<usize>,
    detected: usize,
) -> nat {
    if group_counts is Some && total(group_counts->0) > 0 {
        total(group_counts->0)
    } else if reported is Some {
        reported->0 as nat
    } else {
        detected as nat
    }
}

/// The counts of the groups, where there are groups.
pub open spec fn counts_of(group_counts: Option<&Vec<u32>>) -> Option<Seq<u32>> {
    match group_counts {
        Some(counts) => Some(counts@),
        None => None,
    }
}

/// `sysinfo::System::new_all` reads the state of the system, and `System::cpus` lists its
/// processors; this is the length of that list. It depends on the machine alone, and nothing is
/// claimed of it: the list is empty where the system does not tell.
#[verifier::external_body]
fn num_cpus_get() -> (count: usize) {
    sysinfo::System::new_all().cpus().len()
}

/// Number of available processors, from all that can be known of it.
pub fn parallelism_from(
    group_counts: Option<&Vec<u32>>,
    reported: Option<usize>,
    detected: usize,
) -> (count: usize)
    requires
        group_counts matches Some(counts) ==> total(counts@) <= u32::MAX,
    ensures
        count == parallelism(counts_of(group_counts), reported, detected),
        group_counts matches Some(counts) ==> total(counts@) > 0 ==> count == total(counts@),
        (group_counts matches Some(counts) ==> total(counts@) == 0) ==> (match reported {
            Some(n) => count == n,
            None => count == detected,
        }),
{
    let sum: u32 = match group_counts {
        Some(counts) => add_counts(counts),
        None => 0,
    };
    if sum > 0 {
        sum as usize
    } else {
        match reported {
            Some(count) => count,
            None => detected,
        }
    }
}

/// Sum of the processor counts of all groups.
fn add_counts(counts: &Vec<u32>) -> (sum: u32)
    requires
        total(counts@) <= u32::MAX,
    ensures
        sum == total(counts@),
{
    let mut sum: u32 = 0;
    let mut i: usize = 0;
    while i < counts.len()
        invariant
            i <= counts@.len(),
            sum == total(counts@.take(i as int)),
            total(counts@) <= u32::MAX,
        decreases counts@.len() - i,
    {
        proof {
            assert(counts@.take(i + 1).drop_last() =~= counts@.take(i as int));
            total_of_prefix(counts@, i + 1);
        }
        let count: u32 = counts[i];
        if count > 0 {
            sum += count;
        }
        i += 1;
    }
    assert(counts@.take(i as int) =~= counts@);
    sum
}

/// The number `n`, but no less than one.
pub open spec fn at_least_one(n: nat) -> nat {
    if n == 0 {
        1
    } else {
        n
    }
}

/// Number of available processors, from all that can be known of it, but no less than one.
pub fn positive_parallelism_from(
    group_counts: Option<&Vec<u32>>,
    reported: Option<usize>,
    detected: usize,
) -> (count: usize)
    requires
        group_counts matches Some(counts) ==> total(counts@) <= u32::MAX,
    ensures
        count == at_least_one(parallelism(counts_of(group_counts), reported, detected)),
        count > 0,
        group_counts matches Some(counts) ==> total(counts@) > 0 ==> count == total(counts@),
        (group_counts matches Some(counts) ==> total(counts@) == 0) ==> (match reported {
            Some(n) => n > 0 ==> count == n,
            None => detected > 0 ==> count == detected,
        }),
        (group_counts matches Some(counts) ==> total(counts@) == 0) && (match reported {
            Some(n) => n == 0,
            None => detected == 0,
        }) ==> count == 1,
{
    let count: usize = parallelism_from(group_counts, reported, detected);
    if count == 0 {
        1
    } else {
        count
    }
}

/// Number of available processors on Windows, where `counts` holds the number of active processors
/// of each group and `reported` what the standard library reports.
pub fn get_active_processor_count_all_groups(counts: &Vec<u32>, reported: Option<usize>) -> (count:
    usize)
    requires
        total(counts@) <= u32::MAX,
    ensures
        count > 0,
        exists|detected: usize|
            count == at_least_one(#[trigger] parallelism(Some(counts@), reported, detected)),
        total(counts@) > 0 ==> count == total(counts@),
        total(counts@) == 0 ==> (reported matches Some(n) ==> n > 0 ==> count == n),
{
    available_parallelism(Some(counts), reported)
}

/// Number of available logical processors over all processor groups. `group_counts` holds the
/// number of active processors of each group on Windows, and `reported` what the standard library
/// reports. The number is positive: the processor that this runs on is always there.
///
/// The processors are detected only where neither of them tells. The result is then what was
/// detected, of which nothing is claimed, but no less than one.
pub fn available_parallelism(group_counts: Option<&Vec<u32>>, reported: Option<usize>) -> (count:
    usize)
    requires
        group_counts matches Some(counts) ==> total(counts@) <= u32::MAX,
    ensures
        count > 0,
        exists|detected: usize|
            count == at_least_one(
                #[trigger] parallelism(counts_of(group_counts), reported, detected),
            ),
        group_counts matches Some(counts) ==> total(counts@) > 0 ==> count == total(counts@),
        (group_counts matches Some(counts) ==> total(counts@) == 0) ==> (reported matches Some(n)
            ==> n > 0 ==> count == n),
{
    let known: usize = parallelism_from(group_counts, reported, 0);
    let detected: usize = if known > 0 || reported.is_some() {
        0
    } else {
        num_cpus_get()
    };
    positive_parallelism_from(group_counts, reported, detected)
}

proof fn total_of_prefix(counts: Seq<u32>, n: int)
    requires
        0 <= n <= counts.len(),
    ensures
        total(counts.take(n)) <= total(counts),
    decreases counts.len(),
{
    if n < counts.len() {
        total_of_prefix(counts.drop_last(), n);
        assert(counts.drop_last().take(n) =~= counts.take(n));
    } else {
        assert(counts.take(n) =~= counts);
    }
}

/// Groups listed one after the other count for the sum of both lists.
pub proof fn total_adds_over_lists(first: Seq<u32>, second: Seq<u32>)
    ensures
        total(first + second) == total(first) + total(second),
    decreases second.len(),
{
    if second.len() == 0 {
        assert(first + second =~= first);
    } else {
        total_adds_over_lists(first, second.drop_last());
        assert((first + second).drop_last() =~= first + second.drop_last());
    }
}

/// The number is not capped by one group: it is no less than the counts of any two groups taken
/// together.
pub proof fn no_group_caps_the_number(
    counts: Seq<u32>,
    reported: Option<usize>,
    detected: usize,
    i: int,
    j: int,
)
    requires
        0 <= i < counts.len(),
        0 <= j < counts.len(),
        i != j,
        counts[i] > 0,
    ensures
        parallelism(Some(counts), reported, detected) >= counts[i] + counts[j],
{
    let low = if i < j {
        i
    } else {
        j
    };
    let high = if i < j {
        j
    } else {
        i
    };
    let head = counts.take(high + 1);
    total_of_prefix(counts, high + 1);
    assert(head.drop_last() =~= counts.take(high));
    assert(counts.take(high).take(low + 1) =~= counts.take(low + 1));
    total_of_prefix(counts.take(high), low + 1);
    assert(counts.take(low + 1).last() == counts[low]);
}

/// The sum over the groups is their sum: nothing for no group, and the count of the group for one;
/// with [`total_adds_over_lists`], this holds of any list.
pub proof fn total_is_the_sum(counts: Seq<u32>, count: u32)
    ensures
        total(Seq::<u32>::empty()) == 0,
        total(seq![count]) == count,
        total(counts) == counts.fold_left(0nat, |sum: nat, next: u32| sum + next as nat),
    decreases counts.len(),
{
    assert(seq![count].drop_last() =~= Seq::<u32>::empty());
    if counts.len() > 0 {
        total_is_the_sum(counts.drop_last(), count);
    }
}

/// What the standard library reports is the number itself, however large, where there are no groups
/// or no processor in them.
pub proof fn report_is_taken_as_it_is(
    group_counts: Option<Seq<u32>>,
    reported: usize,
    detected: usize,
)
    requires
        group_counts matches Some(counts) ==> forall|i: int| 0 <= i < counts.len() ==> counts[i] == 0,
    ensures
        parallelism(group_counts, Some(reported), detected) == reported,
        reported > 0 ==> at_least_one(parallelism(group_counts, Some(reported), detected))
            == reported,
{
    if let Some(counts) = group_counts {
        no_processors_in_empty_groups(counts);
    }
}

/// What was detected is the number itself, where nothing else is known.
pub proof fn detection_is_taken_as_it_is(group_counts: Option<Seq<u32>>, detected: usize)
    requires
        group_counts matches Some(counts) ==> forall|i: int| 0 <= i < counts.len() ==> counts[i] == 0,
    ensures
        parallelism(group_counts, None, detected) == detected,
        detected > 0 ==> at_least_one(parallelism(group_counts, None, detected)) == detected,
        detected == 0 ==> at_least_one(parallelism(group_counts, None, detected)) == 1,
{
    if let Some(counts) = group_counts {
        no_processors_in_empty_groups(counts);
    }
}

/// The sum over the groups is the number itself, where a group has a processor, whatever else is
/// reported or detected.
pub proof fn groups_are_taken_as_they_are(
    counts: Seq<u32>,
    i: int,
    reported: Option<usize>,
    detected: usize,
)
    requires
        0 <= i < counts.len(),
        counts[i] > 0,
    ensures
        parallelism(Some(counts), reported, detected) == counts.fold_left(
            0nat,
            |sum: nat, next: u32| sum + next as nat,
        ),
        at_least_one(parallelism(Some(counts), reported, detected)) == counts.fold_left(
            0nat,
            |sum: nat, next: u32| sum + next as nat,
        ),
{
    total_is_the_sum(counts, 0);
    total_of_prefix(counts, i + 1);
    assert(counts.take(i + 1).last() == counts[i]);
}

proof fn no_processors_in_empty_groups(counts: Seq<u32>)
    requires
        forall|i: int| 0 <= i < counts.len() ==> counts[i] == 0,
    ensures
        total(counts) == 0,
    decreases counts.len(),
{
    if counts.len() > 0 {
        no_processors_in_empty_groups(counts.drop_last());
    }
}

} // verus!
