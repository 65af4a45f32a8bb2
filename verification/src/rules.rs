//! What the rules on the steps accept and refuse, proved of every sequence of steps.

use crate::domain::new_tb303_pattern::well_sequenced;
use crate::domain::new_tb303_step::StepView;
use crate::domain::StepNumber;
use crate::models::{CreateTB303Step, Submission};
use crate::text::grapheme_cluster_count;
use crate::validation::{
    checked, checked_steps, duplicate_message, field_rejection, first_invalid_number,
    first_pitched_rest, first_repeat, has_number, header_rejection, least_absent, least_present,
    missing_message, rejection, repeats, rest_message, sequence_rejection, start_message,
};
use vstd::prelude::*;
use vstd::set_lib::{lemma_int_range, lemma_subset_equality, set_int_range};

verus! {

/// The numbers of the steps, in the order of the steps.
pub open spec fn numbers(steps: Seq<StepView>) -> Seq<int> {
    Seq::new(steps.len(), |i: int| steps[i].number)
}

/// The search for a step number that is not admitted finds the first such step,
/// and finds none only where every number is admitted.
pub proof fn lemma_first_invalid_number(steps: Seq<CreateTB303Step>, from: int)
    requires
        0 <= from,
    ensures
        match first_invalid_number(steps, from) {
            Some(i) => {
                &&& from <= i < steps.len()
                &&& !StepNumber::admits(steps[i].number as int)
                &&& forall|j: int| from <= j < i ==> StepNumber::admits(steps[j].number as int)
            },
            None => forall|j: int|
                from <= j < steps.len() ==> StepNumber::admits(steps[j].number as int),
        },
    decreases steps.len() - from,
{
    if from < steps.len() && StepNumber::admits(steps[from].number as int) {
        lemma_first_invalid_number(steps, from + 1);
    }
}

/// The search for a rest with pitch finds the first such step, and finds none
/// only where every rest is silent.
pub proof fn lemma_first_pitched_rest(steps: Seq<StepView>, from: int)
    requires
        0 <= from,
    ensures
        match first_pitched_rest(steps, from) {
            Some(i) => {
                &&& from <= i < steps.len()
                &&& !steps[i].rest_is_silent()
                &&& forall|j: int| from <= j < i ==> (#[trigger] steps[j]).rest_is_silent()
            },
            None => forall|j: int|
                from <= j < steps.len() ==> (#[trigger] steps[j]).rest_is_silent(),
        },
    decreases steps.len() - from,
{
    if from < steps.len() && steps[from].rest_is_silent() {
        lemma_first_pitched_rest(steps, from + 1);
    }
}

/// The search for a repeated number finds the first step that repeats the number
/// of an earlier one, and finds none only where no step does.
pub proof fn lemma_first_repeat(steps: Seq<StepView>, from: int)
    requires
        0 <= from,
    ensures
        match first_repeat(steps, from) {
            Some(j) => {
                &&& from <= j < steps.len()
                &&& repeats(steps, j)
                &&& forall|k: int| from <= k < j ==> !repeats(steps, k)
            },
            None => forall|k: int| from <= k < steps.len() ==> !repeats(steps, k),
        },
    decreases steps.len() - from,
{
    if from < steps.len() && !repeats(steps, from) {
        lemma_first_repeat(steps, from + 1);
    }
}

/// The least absent number is absent, or 17, and every number before it is present.
pub proof fn lemma_least_absent(steps: Seq<StepView>, from: int)
    requires
        from <= 17,
    ensures
        from <= least_absent(steps, from) <= 17,
        least_absent(steps, from) > 16 || !has_number(steps, least_absent(steps, from)),
        forall|k: int| from <= k < least_absent(steps, from) ==> has_number(steps, k),
    decreases 17 - from,
{
    if from <= 16 && has_number(steps, from) {
        lemma_least_absent(steps, from + 1);
    }
}

/// The least present number is present and nothing before it is; there is none
/// only where no number up to 16 is present.
pub proof fn lemma_least_present(steps: Seq<StepView>, from: int)
    ensures
        match least_present(steps, from) {
            Some(k) => {
                &&& from <= k <= 16
                &&& has_number(steps, k)
                &&& forall|j: int| from <= j < k ==> !has_number(steps, j)
            },
            None => forall|j: int| from <= j <= 16 ==> !has_number(steps, j),
        },
    decreases 17 - from,
{
    if from <= 16 && !has_number(steps, from) {
        lemma_least_present(steps, from + 1);
    }
}

proof fn lemma_distinct_numbers(steps: Seq<StepView>)
    requires
        first_repeat(steps, 0) is None,
    ensures
        numbers(steps).no_duplicates(),
        forall|i: int, j: int|
            0 <= i < j < steps.len() ==> (#[trigger] steps[i]).number != (
            #[trigger] steps[j]).number,
{
    lemma_first_repeat(steps, 0);
    assert forall|i: int, j: int| 0 <= i < j < steps.len() implies (#[trigger] steps[i]).number != (
    #[trigger] steps[j]).number by {
        assert(!repeats(steps, j));
    }
}

/// Steps that use each number once, all of them from `1..=top`, and every one of
/// those numbers: there are exactly `top` of them.
proof fn lemma_count_of_run(steps: Seq<StepView>, top: int)
    requires
        0 <= top,
        numbers(steps).no_duplicates(),
        forall|i: int| 0 <= i < steps.len() ==> 1 <= (#[trigger] steps[i]).number <= top,
        forall|k: int| 1 <= k <= top ==> has_number(steps, k),
    ensures
        steps.len() == top,
{
    let held = numbers(steps).to_set();
    let run = set_int_range(1, top + 1);
    assert forall|k: int| held.contains(k) <==> run.contains(k) by {
        if run.contains(k) {
            assert(has_number(steps, k));
            let i = choose|i: int| 0 <= i < steps.len() && (#[trigger] steps[i]).number == k;
            assert(numbers(steps)[i] == k);
        }
    }
    assert(held =~= run);
    numbers(steps).unique_seq_to_set();
    lemma_int_range(1, top + 1);
}

/// Steps that use each number once, all of them from `1..=N` where `N` is their
/// count: every one of those numbers is used.
proof fn lemma_run_is_full(steps: Seq<StepView>)
    requires
        numbers(steps).no_duplicates(),
        forall|i: int| 0 <= i < steps.len() ==> 1 <= (#[trigger] steps[i]).number <= steps.len(),
    ensures
        forall|k: int| 1 <= k <= steps.len() ==> has_number(steps, k),
{
    let held = numbers(steps).to_set();
    let run = set_int_range(1, steps.len() as int + 1);
    numbers(steps).unique_seq_to_set();
    lemma_int_range(1, steps.len() as int + 1);
    lemma_subset_equality(held, run);
    assert forall|k: int| 1 <= k <= steps.len() implies has_number(steps, k) by {
        assert(run.contains(k));
    }
}

/// Among steps whose numbers are each admitted, the rules accept exactly the
/// well sequenced: one to sixteen steps, silent rests, and the numbers `1..=N`
/// each used once, in whatever order the steps come.
pub proof fn lemma_accepts_exactly_the_well_sequenced(steps: Seq<StepView>)
    requires
        forall|i: int| 0 <= i < steps.len() ==> StepNumber::admits((#[trigger] steps[i]).number),
    ensures
        sequence_rejection(steps) is None <==> well_sequenced(steps),
{
    lemma_first_pitched_rest(steps, 0);
    lemma_first_repeat(steps, 0);
    lemma_least_absent(steps, 1);
    let absent = least_absent(steps, 1);
    lemma_least_present(steps, absent + 1);
    if sequence_rejection(steps) is None {
        lemma_distinct_numbers(steps);
        assert forall|i: int| 0 <= i < steps.len() implies 1 <= (#[trigger] steps[i]).number
            <= absent - 1 by {
            let n = steps[i].number;
            assert(has_number(steps, n));
        }
        lemma_count_of_run(steps, absent - 1);
    }
    if well_sequenced(steps) {
        lemma_run_is_full(steps);
    }
}

/// Whether the steps are numbered exactly `1..=N`, where `N` is their count:
/// every one of those numbers is the number of some step.
pub open spec fn numbered_as_run(steps: Seq<StepView>) -> bool {
    forall|k: int| 1 <= k <= steps.len() ==> has_number(steps, k)
}

/// Steps numbered exactly `1..=N` use each number once and no other number.
pub proof fn lemma_run_uses_each_number_once(steps: Seq<StepView>)
    requires
        numbered_as_run(steps),
    ensures
        forall|i: int, j: int|
            0 <= i < j < steps.len() ==> (#[trigger] steps[i]).number != (
            #[trigger] steps[j]).number,
        forall|i: int| 0 <= i < steps.len() ==> 1 <= (#[trigger] steps[i]).number <= steps.len(),
{
    let held = numbers(steps).to_set();
    let run = set_int_range(1, steps.len() as int + 1);
    lemma_int_range(1, steps.len() as int + 1);
    assert forall|k: int| run.contains(k) implies held.contains(k) by {
        assert(has_number(steps, k));
        let i = choose|i: int| 0 <= i < steps.len() && (#[trigger] steps[i]).number == k;
        assert(numbers(steps)[i] == k);
    }
    numbers(steps).lemma_cardinality_of_set();
    vstd::set_lib::lemma_len_subset(run, held);
    lemma_subset_equality(run, held);
    numbers(steps).lemma_no_dup_set_cardinality();
    assert forall|i: int, j: int| 0 <= i < j < steps.len() implies (#[trigger] steps[i]).number != (
    #[trigger] steps[j]).number by {
        assert(numbers(steps)[i] != numbers(steps)[j]);
    }
    assert forall|i: int| 0 <= i < steps.len() implies 1 <= (#[trigger] steps[i]).number
        <= steps.len() by {
        assert(numbers(steps)[i] == steps[i].number);
        assert(held.contains(steps[i].number));
    }
}

/// A submission is accepted, in whatever order its steps were submitted, when
/// every field is admitted, there are between one and sixteen steps, they are
/// numbered exactly `1..=N`, and no rest carries pitch.
pub proof fn lemma_any_order_of_a_run_is_accepted(s: Submission)
    requires
        header_rejection(s) is None,
        1 <= s.steps.len() <= 16,
        numbered_as_run(checked_steps(s.steps)),
        forall|i: int| 0 <= i < s.steps.len() ==> checked(#[trigger] s.steps[i]).rest_is_silent(),
    ensures
        rejection(s) is None,
{
    let steps = checked_steps(s.steps);
    lemma_run_uses_each_number_once(steps);
    lemma_first_invalid_number(s.steps, 0);
    if first_invalid_number(s.steps, 0) is Some {
        let i = first_invalid_number(s.steps, 0)->0;
        assert(steps[i].number == s.steps[i].number);
    }
    lemma_accepts_exactly_the_well_sequenced(steps);
}

/// A submission in which two steps have the same number is refused. Where no
/// field, nor the count, nor a rest speaks against it first, the reason names a
/// number that a step shares with an earlier one: the first such in the order
/// submitted.
pub proof fn lemma_duplicate_is_refused(s: Submission, i: int, j: int)
    requires
        0 <= i < j < s.steps.len(),
        s.steps[i].number == s.steps[j].number,
    ensures
        rejection(s) is Some,
        field_rejection(s) is None && s.steps.len() <= 16 && first_pitched_rest(
            checked_steps(s.steps),
            0,
        ) is None ==> {
            let steps = checked_steps(s.steps);
            &&& first_repeat(steps, 0) matches Some(r)
            &&& r <= j
            &&& repeats(steps, r)
            &&& rejection(s) == Some(duplicate_message(steps[r].number))
        },
{
    let steps = checked_steps(s.steps);
    lemma_first_repeat(steps, 0);
    assert(steps[i].number == steps[j].number);
    assert(repeats(steps, j));
}

/// A submission whose steps are not numbered exactly `1..=N` is refused. Where
/// nothing else speaks against it first, the reason is that no step is numbered
/// 1, or else it names the least number that is missing and the least number
/// that some step has above it.
pub proof fn lemma_broken_run_is_refused(s: Submission)
    requires
        !numbered_as_run(checked_steps(s.steps)),
    ensures
        rejection(s) is Some,
        ({
            let steps = checked_steps(s.steps);
            &&& field_rejection(s) is None
            &&& s.steps.len() <= 16
            &&& first_pitched_rest(steps, 0) is None
            &&& first_repeat(steps, 0) is None
        }) ==> {
            let steps = checked_steps(s.steps);
            let expected = least_absent(steps, 1);
            if !has_number(steps, 1) {
                rejection(s) == Some(start_message())
            } else {
                &&& least_present(steps, expected + 1) matches Some(found)
                &&& rejection(s) == Some(missing_message(expected, found))
                &&& !has_number(steps, expected)
                &&& forall|k: int| 1 <= k < expected ==> has_number(steps, k)
                &&& has_number(steps, found)
                &&& forall|k: int| expected < k < found ==> !has_number(steps, k)
            }
        },
{
    let steps = checked_steps(s.steps);
    if field_rejection(s) is None {
        lemma_first_invalid_number(s.steps, 0);
        lemma_accepts_exactly_the_well_sequenced(steps);
        if well_sequenced(steps) {
            lemma_run_is_full_of(steps);
        }
        lemma_least_absent(steps, 1);
        lemma_least_present(steps, least_absent(steps, 1) + 1);
    }
}

proof fn lemma_run_is_full_of(steps: Seq<StepView>)
    requires
        well_sequenced(steps),
    ensures
        numbered_as_run(steps),
{
    lemma_run_is_full(steps);
}

/// Whether `sorted` is the numbers of the steps in ascending order, each once.
pub open spec fn is_ascending_order_of(sorted: Seq<int>, steps: Seq<StepView>) -> bool {
    &&& forall|i: int, j: int| 0 <= i < j < sorted.len() ==> sorted[i] < sorted[j]
    &&& forall|n: int| sorted.contains(n) <==> has_number(steps, n)
}

proof fn lemma_run_prefix(sorted: Seq<int>, upto: int, k: int)
    requires
        0 <= k < upto <= sorted.len(),
        sorted[0] == 1,
        forall|j: int| 0 < j < upto ==> #[trigger] sorted[j] == sorted[j - 1] + 1,
    ensures
        sorted[k] == k + 1,
    decreases k,
{
    if k > 0 {
        lemma_run_prefix(sorted, upto, k - 1);
    }
}

/// The numbers in ascending order start with 1 exactly where some step is
/// numbered 1.
pub proof fn lemma_start_of_ascending_order(steps: Seq<StepView>, sorted: Seq<int>)
    requires
        is_ascending_order_of(sorted, steps),
        steps.len() > 0,
        forall|i: int| 0 <= i < steps.len() ==> StepNumber::admits((#[trigger] steps[i]).number),
    ensures
        sorted.len() > 0,
        sorted[0] == 1 <==> has_number(steps, 1),
{
    assert(has_number(steps, steps[0].number));
    assert(sorted.contains(steps[0].number));
    if sorted[0] == 1 {
        assert(sorted.contains(1));
    }
    if has_number(steps, 1) {
        assert(sorted.contains(1));
        let k = choose|k: int| 0 <= k < sorted.len() && sorted[k] == 1;
        if k > 0 {
            assert(sorted.contains(sorted[0]));
            assert(has_number(steps, sorted[0]));
            let i = choose|i: int| 0 <= i < steps.len() && (#[trigger] steps[i]).number == sorted[0];
            assert(StepNumber::admits(steps[i].number));
        }
    }
}

/// Where the numbers in ascending order start with 1, the first place at
/// which a number is not one more than the number before it is the gap that
/// the rules name: the number expected there is the least that is missing,
/// and the number found there is the least that some step has above it.
pub proof fn lemma_first_mismatch_in_ascending_order(
    steps: Seq<StepView>,
    sorted: Seq<int>,
    at: int,
)
    requires
        is_ascending_order_of(sorted, steps),
        forall|i: int| 0 <= i < steps.len() ==> StepNumber::admits((#[trigger] steps[i]).number),
        0 < at < sorted.len(),
        sorted[0] == 1,
        sorted[at] != sorted[at - 1] + 1,
        forall|j: int| 0 < j < at ==> #[trigger] sorted[j] == sorted[j - 1] + 1,
    ensures
        least_absent(steps, 1) == sorted[at - 1] + 1,
        least_present(steps, least_absent(steps, 1) + 1) == Some(sorted[at]),
{
    let expected = at + 1;
    let found = sorted[at];
    lemma_run_prefix(sorted, at, at - 1);
    assert(sorted[at - 1] == at);
    assert(found > expected);
    assert(sorted.contains(found));
    assert(has_number(steps, found));
    let w = choose|i: int| 0 <= i < steps.len() && (#[trigger] steps[i]).number == found;
    assert(StepNumber::admits(steps[w].number));
    assert forall|n: int| 1 <= n < expected implies has_number(steps, n) by {
        lemma_run_prefix(sorted, at, n - 1);
        assert(sorted[n - 1] == n);
        assert(sorted.contains(n));
    }
    assert forall|n: int| expected <= n < found implies !has_number(steps, n) by {
        if has_number(steps, n) {
            assert(sorted.contains(n));
            let k = choose|k: int| 0 <= k < sorted.len() && sorted[k] == n;
            if k < at {
                lemma_run_prefix(sorted, at, k);
            } else if k > at {
                assert(sorted[at] < sorted[k]);
            }
        }
    }
    lemma_least_absent(steps, 1);
    let absent = least_absent(steps, 1);
    if absent < expected {
        assert(has_number(steps, absent));
    }
    if absent > expected {
        assert(has_number(steps, expected));
    }
    lemma_least_present(steps, expected + 1);
    match least_present(steps, expected + 1) {
        Some(k) => {
            if k < found {
                assert(!has_number(steps, k));
            }
            if k > found {
                assert(!has_number(steps, found));
            }
        },
        None => {
            assert(!has_number(steps, found));
        },
    }
}

/// A submission with a rest that carries a note or an octave shift is refused.
/// Where no field nor the count speaks against it first, the reason names the
/// number of the first such rest in the order submitted.
pub proof fn lemma_pitched_rest_is_refused(s: Submission, i: int)
    requires
        0 <= i < s.steps.len(),
        !checked(s.steps[i]).rest_is_silent(),
    ensures
        rejection(s) is Some,
        field_rejection(s) is None && s.steps.len() <= 16 ==> {
            let steps = checked_steps(s.steps);
            &&& first_pitched_rest(steps, 0) matches Some(r)
            &&& r <= i
            &&& !steps[r].rest_is_silent()
            &&& rejection(s) == Some(rest_message(s.steps[r].number as int))
        },
{
    let steps = checked_steps(s.steps);
    lemma_first_pitched_rest(steps, 0);
    assert(!steps[i].rest_is_silent());
}

/// Whether an optional number is there and lies outside `low..=high`.
pub open spec fn outside(field: Option<int>, low: int, high: int) -> bool {
    field matches Some(value) && !(low <= value <= high)
}

/// Whether an optional text is there and has more than `limit` grapheme clusters.
pub open spec fn longer_than(field: Option<Seq<char>>, limit: nat) -> bool {
    field matches Some(text) && grapheme_cluster_count(text) > limit
}

/// A submission is refused when a knob lies outside `0..=100`, the tempo lies
/// outside `0..=999`, the name has more than 50 grapheme clusters, or the
/// description has more than 500.
pub proof fn lemma_out_of_range_is_refused(s: Submission)
    requires
        ({
            ||| outside(s.tuning, 0, 100)
            ||| outside(s.cut_off_freq, 0, 100)
            ||| outside(s.resonance, 0, 100)
            ||| outside(s.env_mod, 0, 100)
            ||| outside(s.decay, 0, 100)
            ||| outside(s.accent, 0, 100)
            ||| outside(s.tempo, 0, 999)
            ||| grapheme_cluster_count(s.name) > 50
            ||| longer_than(s.description, 500)
        }),
    ensures
        rejection(s) is Some,
{
}

} // verus!
