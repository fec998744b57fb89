//! The order in which packs answer does not matter.
//!
//! The registry keeps its packs in ascending order of their serial numbers,
//! and a sequence in that order is determined by what it holds. So the same
//! answers, in whatever order they arrive, leave the same registry, and the
//! same packs get the same addresses.

use crate::component::bms::registry::{
    answered, ascending_serials, distinct_serials, fresh_entry, holds_serial,
    lemma_distinct_answers_are_all_held,
    lemma_holds_serial_at_rank, lemma_rank_splits, rank, registry_wf, spec_observation,
    spec_observe, spec_observe_all, spec_reassign, Observation, RegistryEntry, MAX_PACKS,
};
use crate::component::bms::structs::BatteryPack;
use vstd::prelude::*;

verus! {

/// Whether one of `answers` has this serial number and this part number.
pub open spec fn answered_with(answers: Seq<BatteryPack>, serial_number: u32, part_number: u32) -> bool {
    exists|i: int|
        0 <= i < answers.len() && (#[trigger] answers[i]).serial_number == serial_number
            && answers[i].part_number == part_number
}

/// Whether two runs of answers hold the same answers, in whatever order.
pub open spec fn same_answers(first: Seq<BatteryPack>, second: Seq<BatteryPack>) -> bool {
    forall|serial_number: u32, part_number: u32|
        answered_with(first, serial_number, part_number) <==> answered_with(
            second,
            serial_number,
            part_number,
        )
}

/// Two sequences in ascending order of serial numbers that hold the same
/// entries are the same sequence.
pub proof fn lemma_ascending_entries_are_determined(
    first: Seq<RegistryEntry>,
    second: Seq<RegistryEntry>,
)
    requires
        ascending_serials(first),
        ascending_serials(second),
        forall|entry: RegistryEntry| first.contains(entry) <==> second.contains(entry),
    ensures
        first == second,
    decreases first.len(),
{
    if first.len() == 0 {
        if second.len() > 0 {
            assert(second.contains(second[0]));
            assert(first.contains(second[0]));
        }
        assert(first =~= second);
    } else {
        let last = first.last();
        assert(first.contains(first[first.len() - 1]));
        assert(second.contains(last));
        let j = choose|j: int| 0 <= j < second.len() && second[j] == last;
        let other = second.last();
        assert(second.contains(second[second.len() - 1]));
        assert(first.contains(other));
        let i = choose|i: int| 0 <= i < first.len() && first[i] == other;
        // each last entry has the largest serial number of its sequence, and
        // each is held by the other sequence
        if j < second.len() - 1 {
            assert(second[j].pack.serial_number < second[second.len() - 1].pack.serial_number);
        }
        if i < first.len() - 1 {
            assert(first[i].pack.serial_number < first[first.len() - 1].pack.serial_number);
        }
        assert(j == second.len() - 1);
        assert(other == last);
        let first_rest = first.drop_last();
        let second_rest = second.drop_last();
        assert(ascending_serials(first_rest));
        assert(ascending_serials(second_rest));
        assert forall|entry: RegistryEntry| first_rest.contains(entry) <==> second_rest.contains(
            entry,
        ) by {
            if first_rest.contains(entry) {
                let k = choose|k: int| 0 <= k < first_rest.len() && first_rest[k] == entry;
                assert(first[k] == entry);
                assert(first[k].pack.serial_number < first[first.len() - 1].pack.serial_number);
                assert(first.contains(entry));
                let m = choose|m: int| 0 <= m < second.len() && second[m] == entry;
                assert(m != second.len() - 1);
                assert(second_rest[m] == entry);
            }
            if second_rest.contains(entry) {
                let k = choose|k: int| 0 <= k < second_rest.len() && second_rest[k] == entry;
                assert(second[k] == entry);
                assert(second[k].pack.serial_number < second[second.len() - 1].pack.serial_number);
                assert(second.contains(entry));
                let m = choose|m: int| 0 <= m < first.len() && first[m] == entry;
                assert(m != first.len() - 1);
                assert(first_rest[m] == entry);
            }
        }
        lemma_ascending_entries_are_determined(first_rest, second_rest);
        assert(first =~= first_rest.push(last));
        assert(second =~= second_rest.push(last));
    }
}

/// After a new pack has been taken in, the registry holds the entries that
/// it held before and the entry of the new pack, and no other.
pub proof fn lemma_added_entry_is_held(
    entries: Seq<RegistryEntry>,
    serial_number: u32,
    part_number: u32,
    entry: RegistryEntry,
)
    requires
        registry_wf(entries),
        spec_observation(entries, serial_number) == Observation::Added,
    ensures
        spec_observe(entries, serial_number, part_number).contains(entry) <==> entries.contains(entry)
            || entry == fresh_entry(serial_number, part_number),
{
    lemma_rank_splits(entries, serial_number);
    let at = rank(entries, serial_number) as int;
    let fresh = fresh_entry(serial_number, part_number);
    let after = spec_observe(entries, serial_number, part_number);
    entries.insert_ensures(at, fresh);
    if entries.contains(entry) {
        let i = choose|i: int| 0 <= i < entries.len() && entries[i] == entry;
        if i < at {
            assert(after[i] == entry);
        } else {
            assert(after[i + 1] == entry);
        }
    }
    if entry == fresh {
        assert(after[at] == entry);
    }
    if after.contains(entry) && entry != fresh {
        let i = choose|i: int| 0 <= i < after.len() && after[i] == entry;
        if i < at {
            assert(entries[i] == entry);
        } else {
            assert(i != at);
            assert(after[(i - 1) + 1] == entries[i - 1]);
            assert(entries[i - 1] == entry);
        }
    }
}

/// Up to nine answers with different serial numbers, taken in by an empty
/// registry, leave it with the entry of a new pack for each answer, and with
/// no other entry.
pub proof fn lemma_answers_become_entries(answers: Seq<BatteryPack>, entry: RegistryEntry)
    requires
        answers.len() <= MAX_PACKS,
        distinct_serials(answers),
    ensures
        spec_observe_all(Seq::empty(), answers).contains(entry) <==> entry.pack.address == 0
            && entry.age == 0 && answered_with(
            answers,
            entry.pack.serial_number,
            entry.pack.part_number,
        ),
    decreases answers.len(),
{
    let empty = Seq::<RegistryEntry>::empty();
    if answers.len() > 0 {
        let earlier = answers.drop_last();
        let last = answers.last();
        let before = spec_observe_all(empty, earlier);
        assert(distinct_serials(earlier)) by {
            assert forall|i: int, j: int| 0 <= i < j < earlier.len() implies (
            #[trigger] earlier[i]).serial_number != (#[trigger] earlier[j]).serial_number by {
                assert(answers[i].serial_number != answers[j].serial_number);
            }
        }
        lemma_distinct_answers_are_all_held(earlier);
        lemma_answers_become_entries(earlier, entry);
        assert(spec_observation(before, last.serial_number) == Observation::Added) by {
            lemma_holds_serial_at_rank(before, last.serial_number);
            if answered(earlier, last.serial_number) {
                let i = choose|i: int|
                    0 <= i < earlier.len() && (#[trigger] earlier[i]).serial_number
                        == last.serial_number;
                assert(answers[i].serial_number != answers[answers.len() - 1].serial_number);
            }
            assert(!holds_serial(before, last.serial_number));
        }
        lemma_added_entry_is_held(before, last.serial_number, last.part_number, entry);
        let serial_number = entry.pack.serial_number;
        let part_number = entry.pack.part_number;
        if answered_with(earlier, serial_number, part_number) {
            let i = choose|i: int|
                0 <= i < earlier.len() && (#[trigger] earlier[i]).serial_number == serial_number
                    && earlier[i].part_number == part_number;
            assert(answers[i].serial_number == serial_number && answers[i].part_number
                == part_number);
        }
        if entry == fresh_entry(last.serial_number, last.part_number) {
            assert(answers[answers.len() - 1].serial_number == serial_number && answers[answers.len()
                - 1].part_number == part_number);
        }
        if answered_with(answers, serial_number, part_number) {
            let i = choose|i: int|
                0 <= i < answers.len() && (#[trigger] answers[i]).serial_number == serial_number
                    && answers[i].part_number == part_number;
            if i < answers.len() - 1 {
                assert(earlier[i].serial_number == serial_number && earlier[i].part_number
                    == part_number);
            }
        }
    } else {
        assert(!empty.contains(entry));
    }
}

/// The same answers leave the same registry and, after a reassignment, the
/// same addresses, in whatever order they arrive.
pub proof fn lemma_order_of_arrival_does_not_matter(first: Seq<BatteryPack>, second: Seq<BatteryPack>)
    requires
        first.len() <= MAX_PACKS,
        second.len() <= MAX_PACKS,
        distinct_serials(first),
        distinct_serials(second),
        same_answers(first, second),
    ensures
        spec_observe_all(Seq::empty(), first) == spec_observe_all(Seq::empty(), second),
        spec_reassign(spec_observe_all(Seq::empty(), first)) == spec_reassign(
            spec_observe_all(Seq::empty(), second),
        ),
{
    let empty = Seq::<RegistryEntry>::empty();
    let held_first = spec_observe_all(empty, first);
    let held_second = spec_observe_all(empty, second);
    lemma_distinct_answers_are_all_held(first);
    lemma_distinct_answers_are_all_held(second);
    assert forall|entry: RegistryEntry| held_first.contains(entry) <==> held_second.contains(
        entry,
    ) by {
        lemma_answers_become_entries(first, entry);
        lemma_answers_become_entries(second, entry);
    }
    lemma_ascending_entries_are_determined(held_first, held_second);
}

} // verus!
