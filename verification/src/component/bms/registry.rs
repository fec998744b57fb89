//! The device registry: which battery packs exist now.
//!
//! The registry holds one entry per pack, in ascending order of the packs'
//! serial numbers. That order is the order in which addresses are handed
//! out, so the same set of packs always gets the same addresses.

use crate::component::bms::structs::{BatteryPack, MAX_ADDRESS, UNASSIGNED_ADDRESS};
use vstd::prelude::*;

verus! {

/// The largest number of packs that the registry holds: one per address.
pub const MAX_PACKS: usize = 9;

/// When a pack that has stopped answering is forgotten.
#[derive(Clone, Copy, Debug, PartialEq, Eq, Structural)]
pub enum EvictionPolicy {
    /// Never: a pack that was seen once stays.
    Never,
    /// Once `cycles` discovery cycles in a row have passed without an answer
    /// from the pack.
    AfterMissed { cycles: u32 },
}

/// One pack in the registry.
#[derive(Clone, Copy, Debug, PartialEq, Eq, Structural)]
pub struct RegistryEntry {
    pub pack: BatteryPack,
    /// How many discovery cycles have ended since the pack last answered. A
    /// pack that answers every query is at most one cycle old.
    pub age: u32,
}

/// What the registry made of a serial-number answer.
#[derive(Clone, Copy, Debug, PartialEq, Eq, Structural)]
pub enum Observation {
    /// The pack is new and was taken in, without an address.
    Added,
    /// The pack was known; its entry was refreshed.
    Refreshed,
    /// The pack is new, but the registry holds as many packs as there are
    /// addresses. It was left out.
    Rejected,
}

/// The registry. Only the discovery protocol writes to it.
#[derive(Debug)]
pub struct DeviceRegistry {
    entries: Vec<RegistryEntry>,
}

/// Whether the serial numbers of `entries` ascend strictly. No serial number
/// then occurs twice.
pub open spec fn ascending_serials(entries: Seq<RegistryEntry>) -> bool {
    forall|i: int, j: int|
        0 <= i < j < entries.len() ==> (#[trigger] entries[i]).pack.serial_number
            < (#[trigger] entries[j]).pack.serial_number
}

/// Whether the addresses that have been assigned ascend strictly along
/// `entries`. No address then occurs twice.
pub open spec fn ascending_addresses(entries: Seq<RegistryEntry>) -> bool {
    forall|i: int, j: int|
        0 <= i < j < entries.len() && (#[trigger] entries[i]).pack.address != UNASSIGNED_ADDRESS
            && (#[trigger] entries[j]).pack.address != UNASSIGNED_ADDRESS ==> entries[i].pack.address
            < entries[j].pack.address
}

/// The invariant of the registry's contents: at most nine entries, serial
/// numbers ascending, every address unassigned or in the valid range, and
/// the assigned addresses ascending.
pub open spec fn registry_wf(entries: Seq<RegistryEntry>) -> bool {
    &&& entries.len() <= MAX_PACKS
    &&& ascending_serials(entries)
    &&& ascending_addresses(entries)
    &&& forall|i: int| 0 <= i < entries.len() ==> (#[trigger] entries[i]).pack.address <= MAX_ADDRESS
}

/// Whether `entries` holds a pack with this serial number.
pub open spec fn holds_serial(entries: Seq<RegistryEntry>, serial_number: u32) -> bool {
    exists|i: int| 0 <= i < entries.len() && (#[trigger] entries[i]).pack.serial_number == serial_number
}

/// How many of `entries` have a serial number below `serial_number`. In a
/// registry this is where the pack with that serial number stands, or where
/// it would be put.
pub open spec fn rank(entries: Seq<RegistryEntry>, serial_number: u32) -> nat
    decreases entries.len(),
{
    if entries.len() == 0 {
        0
    } else if entries.last().pack.serial_number < serial_number {
        rank(entries.drop_last(), serial_number) + 1
    } else {
        rank(entries.drop_last(), serial_number)
    }
}

/// The entry of a pack that has just answered for the first time.
pub open spec fn fresh_entry(serial_number: u32, part_number: u32) -> RegistryEntry {
    RegistryEntry {
        pack: BatteryPack { address: UNASSIGNED_ADDRESS, serial_number, part_number },
        age: 0,
    }
}

/// The entry of a known pack that has just answered again: its address as
/// before, its part number as answered, its age zero.
pub open spec fn refreshed_entry(entry: RegistryEntry, part_number: u32) -> RegistryEntry {
    RegistryEntry {
        pack: BatteryPack {
            address: entry.pack.address,
            serial_number: entry.pack.serial_number,
            part_number,
        },
        age: 0,
    }
}

/// What the registry makes of an answer with this serial number.
pub open spec fn spec_observation(entries: Seq<RegistryEntry>, serial_number: u32) -> Observation {
    let at = rank(entries, serial_number) as int;
    if at < entries.len() && entries[at].pack.serial_number == serial_number {
        Observation::Refreshed
    } else if entries.len() >= MAX_PACKS {
        Observation::Rejected
    } else {
        Observation::Added
    }
}

/// The registry's contents after an answer with this serial number and part
/// number.
pub open spec fn spec_observe(
    entries: Seq<RegistryEntry>,
    serial_number: u32,
    part_number: u32,
) -> Seq<RegistryEntry> {
    let at = rank(entries, serial_number) as int;
    match spec_observation(entries, serial_number) {
        Observation::Refreshed => entries.update(at, refreshed_entry(entries[at], part_number)),
        Observation::Rejected => entries,
        Observation::Added => entries.insert(at, fresh_entry(serial_number, part_number)),
    }
}

/// An entry one discovery cycle later.
pub open spec fn aged(entry: RegistryEntry) -> RegistryEntry {
    RegistryEntry {
        pack: entry.pack,
        age: if entry.age < u32::MAX {
            (entry.age + 1) as u32
        } else {
            entry.age
        },
    }
}

/// Whether an entry of this age stays under `policy`: always if nothing is
/// ever evicted; else as long as the pack has not missed `cycles` whole
/// cycles, which makes it more than `cycles` cycles old.
pub open spec fn stays(policy: EvictionPolicy, entry: RegistryEntry) -> bool {
    match policy {
        EvictionPolicy::Never => true,
        EvictionPolicy::AfterMissed { cycles } => entry.age <= cycles,
    }
}

/// The registry's contents after the end of a discovery cycle: every entry
/// one cycle older, and those that do not stay under `policy` gone.
pub open spec fn spec_close_cycle(entries: Seq<RegistryEntry>, policy: EvictionPolicy) -> Seq<
    RegistryEntry,
>
    decreases entries.len(),
{
    if entries.len() == 0 {
        entries
    } else if stays(policy, aged(entries.last())) {
        spec_close_cycle(entries.drop_last(), policy).push(aged(entries.last()))
    } else {
        spec_close_cycle(entries.drop_last(), policy)
    }
}

/// An entry with the address `address`.
pub open spec fn readdressed(entry: RegistryEntry, address: u8) -> RegistryEntry {
    RegistryEntry {
        pack: BatteryPack {
            address,
            serial_number: entry.pack.serial_number,
            part_number: entry.pack.part_number,
        },
        age: entry.age,
    }
}

/// The registry's contents after a reassignment: the entry at position `i`
/// has address `i + 1`.
pub open spec fn spec_reassign(entries: Seq<RegistryEntry>) -> Seq<RegistryEntry> {
    Seq::new(entries.len(), |i: int| readdressed(entries[i], (i + 1) as u8))
}

/// The packs of `entries`, in the same order.
pub open spec fn packs_of(entries: Seq<RegistryEntry>) -> Seq<BatteryPack> {
    Seq::new(entries.len(), |i: int| entries[i].pack)
}

/// In a sequence of ascending serial numbers, the entries below a serial
/// number are exactly those before the first entry that is not below it.
pub proof fn lemma_rank_is_boundary(entries: Seq<RegistryEntry>, serial_number: u32, at: int)
    requires
        ascending_serials(entries),
        0 <= at <= entries.len(),
        forall|i: int| 0 <= i < at ==> (#[trigger] entries[i]).pack.serial_number < serial_number,
        forall|i: int|
            at <= i < entries.len() ==> (#[trigger] entries[i]).pack.serial_number >= serial_number,
    ensures
        rank(entries, serial_number) == at,
    decreases entries.len(),
{
    if entries.len() > 0 {
        let shorter = entries.drop_last();
        if at == entries.len() {
            lemma_rank_is_boundary(shorter, serial_number, at - 1);
        } else {
            lemma_rank_is_boundary(shorter, serial_number, at);
        }
    }
}

/// The rank of a serial number is a position in the sequence or its end;
/// in a sequence of ascending serial numbers every entry before it is below
/// the serial number and every entry from it on is not.
pub proof fn lemma_rank_splits(entries: Seq<RegistryEntry>, serial_number: u32)
    requires
        ascending_serials(entries),
    ensures
        rank(entries, serial_number) <= entries.len(),
        forall|i: int|
            0 <= i < rank(entries, serial_number) ==> (#[trigger] entries[i]).pack.serial_number
                < serial_number,
        forall|i: int|
            rank(entries, serial_number) <= i < entries.len() ==> (
            #[trigger] entries[i]).pack.serial_number >= serial_number,
    decreases entries.len(),
{
    if entries.len() > 0 {
        let shorter = entries.drop_last();
        let last = entries.len() - 1;
        lemma_rank_splits(shorter, serial_number);
        // what the shorter sequence says of its entries holds of the same
        // entries here
        assert forall|i: int| 0 <= i < last implies shorter[i] == #[trigger] entries[i] by {}
    }
}

/// A registry holds a serial number exactly if the entry at the serial
/// number's rank has it.
pub proof fn lemma_holds_serial_at_rank(entries: Seq<RegistryEntry>, serial_number: u32)
    requires
        ascending_serials(entries),
    ensures
        holds_serial(entries, serial_number) <==> spec_observation(entries, serial_number)
            == Observation::Refreshed,
{
    lemma_rank_splits(entries, serial_number);
}

impl View for DeviceRegistry {
    type V = Seq<RegistryEntry>;

    closed spec fn view(&self) -> Seq<RegistryEntry> {
        self.entries@
    }
}

impl DeviceRegistry {
    /// Whether the registry's invariant holds.
    pub open spec fn wf(&self) -> bool {
        registry_wf(self@)
    }

    /// The number of packs.
    pub open spec fn spec_len(&self) -> usize {
        self@.len() as usize
    }

    /// A registry without a pack.
    pub fn new() -> (registry: DeviceRegistry)
        ensures
            registry.wf(),
            registry@ == Seq::<RegistryEntry>::empty(),
    {
        DeviceRegistry { entries: Vec::new() }
    }

    /// The number of packs that the engine believes are on the bus.
    #[verifier::when_used_as_spec(spec_len)]
    pub fn len(&self) -> (len: usize)
        ensures
            len == self@.len(),
    {
        self.entries.len()
    }

    /// Whether the registry holds no pack.
    pub fn is_empty(&self) -> (empty: bool)
        ensures
            empty == (self@.len() == 0),
    {
        self.entries.len() == 0
    }

    /// The entry at `position`, counted from zero in ascending order of the
    /// serial numbers.
    pub fn entry(&self, position: usize) -> (entry: Option<RegistryEntry>)
        ensures
            entry == if position < self@.len() {
                Some(self@[position as int])
            } else {
                None
            },
    {
        if position < self.entries.len() {
            Some(self.entries[position])
        } else {
            None
        }
    }

    /// The packs, in ascending order of their serial numbers.
    pub fn packs(&self) -> (packs: Vec<BatteryPack>)
        ensures
            packs@ == packs_of(self@),
    {
        let mut packs: Vec<BatteryPack> = Vec::new();
        let mut i: usize = 0;
        while i < self.entries.len()
            invariant
                i <= self.entries@.len(),
                packs@.len() == i,
                forall|j: int| 0 <= j < i ==> packs@[j] == self.entries@[j].pack,
            decreases self.entries@.len() - i,
        {
            packs.push(self.entries[i].pack);
            i += 1;
        }
        packs
    }

    /// Where the pack with this serial number stands, or would be put.
    fn position(&self, serial_number: u32) -> (at: usize)
        requires
            self.wf(),
        ensures
            at == rank(self@, serial_number),
            at <= self@.len(),
    {
        let mut at: usize = 0;
        while at < self.entries.len() && self.entries[at].pack.serial_number < serial_number
            invariant
                at <= self.entries@.len(),
                forall|i: int|
                    0 <= i < at ==> (#[trigger] self.entries@[i]).pack.serial_number < serial_number,
            decreases self.entries@.len() - at,
        {
            at += 1;
        }
        proof {
            // the entries from `at` on are not below the serial number,
            // because the first of them is not and they ascend
            lemma_rank_is_boundary(self.entries@, serial_number, at as int);
        }
        at
    }

    /// The pack with this serial number, if the registry holds it.
    pub fn find(&self, serial_number: u32) -> (pack: Option<BatteryPack>)
        requires
            self.wf(),
        ensures
            pack is Some <==> holds_serial(self@, serial_number),
            pack matches Some(p) ==> p == self@[rank(self@, serial_number) as int].pack
                && p.serial_number == serial_number,
    {
        proof {
            lemma_holds_serial_at_rank(self@, serial_number);
        }
        let at = self.position(serial_number);
        if at < self.entries.len() && self.entries[at].pack.serial_number == serial_number {
            Some(self.entries[at].pack)
        } else {
            None
        }
    }

    /// The pack that has been given the short address `address`, if there
    /// is one. No pack is found under the address of the unassigned.
    pub fn at_address(&self, address: u8) -> (pack: Option<BatteryPack>)
        ensures
            match pack {
                Some(found) => address != UNASSIGNED_ADDRESS && found.address == address && exists|
                    i: int,
                |
                    0 <= i < self@.len() && (#[trigger] self@[i]).pack == found,
                None => address == UNASSIGNED_ADDRESS || forall|i: int|
                    0 <= i < self@.len() ==> (#[trigger] self@[i]).pack.address != address,
            },
    {
        if address == UNASSIGNED_ADDRESS {
            return None;
        }
        let mut i: usize = 0;
        while i < self.entries.len()
            invariant
                i <= self.entries@.len(),
                address != UNASSIGNED_ADDRESS,
                forall|j: int| 0 <= j < i ==> (#[trigger] self.entries@[j]).pack.address != address,
            decreases self.entries@.len() - i,
        {
            if self.entries[i].pack.address == address {
                assert(self@[i as int].pack == self.entries@[i as int].pack);
                return Some(self.entries[i].pack);
            }
            i += 1;
        }
        None
    }

    /// Takes in a serial-number answer.
    ///
    /// A pack that the registry does not hold is put in, at its place in the
    /// order of serial numbers and without an address, unless nine packs are
    /// held already. A pack that it holds keeps its address, takes the part
    /// number of the answer and is young again.
    pub fn observe(&mut self, serial_number: u32, part_number: u32) -> (seen: Observation)
        requires
            old(self).wf(),
        ensures
            final(self).wf(),
            final(self)@ == spec_observe(old(self)@, serial_number, part_number),
            seen == spec_observation(old(self)@, serial_number),
    {
        let at = self.position(serial_number);
        proof {
            lemma_rank_splits(self@, serial_number);
        }
        if at < self.entries.len() && self.entries[at].pack.serial_number == serial_number {
            let known = self.entries[at];
            self.entries[at] = RegistryEntry {
                pack: BatteryPack {
                    address: known.pack.address,
                    serial_number: known.pack.serial_number,
                    part_number,
                },
                age: 0,
            };
            Observation::Refreshed
        } else if self.entries.len() >= MAX_PACKS {
            Observation::Rejected
        } else {
            let ghost before = self.entries@;
            self.entries.insert(
                at,
                RegistryEntry {
                    pack: BatteryPack { address: UNASSIGNED_ADDRESS, serial_number, part_number },
                    age: 0,
                },
            );
            proof {
                lemma_insert_keeps_wf(before, serial_number, part_number);
            }
            Observation::Added
        }
    }

    /// Ends a discovery cycle: every pack grows one cycle older, and the
    /// packs that `policy` gives up are forgotten. Returns how many were
    /// forgotten.
    pub fn close_cycle(&mut self, policy: EvictionPolicy) -> (evicted: usize)
        requires
            old(self).wf(),
        ensures
            final(self).wf(),
            final(self)@ == spec_close_cycle(old(self)@, policy),
            evicted == old(self)@.len() - final(self)@.len(),
    {
        let mut kept: Vec<RegistryEntry> = Vec::new();
        let mut i: usize = 0;
        while i < self.entries.len()
            invariant
                i <= self.entries@.len(),
                registry_wf(self.entries@),
                kept@ == spec_close_cycle(self.entries@.take(i as int), policy),
                kept@.len() <= i,
                ascending_serials(kept@),
                ascending_addresses(kept@),
                forall|j: int| 0 <= j < kept@.len() ==> (#[trigger] kept@[j]).pack.address <= MAX_ADDRESS,
                forall|j: int, k: int|
                    0 <= j < kept@.len() && i <= k < self.entries@.len() ==> (
                    #[trigger] kept@[j]).pack.serial_number < (
                    #[trigger] self.entries@[k]).pack.serial_number,
                forall|j: int, k: int|
                    0 <= j < kept@.len() && i <= k < self.entries@.len() && (
                    #[trigger] kept@[j]).pack.address != UNASSIGNED_ADDRESS && (
                    #[trigger] self.entries@[k]).pack.address != UNASSIGNED_ADDRESS
                        ==> kept@[j].pack.address < self.entries@[k].pack.address,
            decreases self.entries@.len() - i,
        {
            let entry = self.entries[i];
            let older = RegistryEntry {
                pack: entry.pack,
                age: if entry.age < u32::MAX {
                    entry.age + 1
                } else {
                    entry.age
                },
            };
            let stays = match policy {
                EvictionPolicy::Never => true,
                EvictionPolicy::AfterMissed { cycles } => older.age <= cycles,
            };
            proof {
                let next = self.entries@.take(i + 1);
                assert(next.drop_last() =~= self.entries@.take(i as int));
            }
            if stays {
                kept.push(older);
            }
            i += 1;
        }
        assert(self.entries@.take(i as int) =~= self.entries@);
        let evicted = self.entries.len() - kept.len();
        self.entries = kept;
        evicted
    }

    /// Gives the packs the addresses 1, 2, 3 and so on, in ascending order of
    /// their serial numbers.
    pub fn reassign(&mut self)
        requires
            old(self).wf(),
        ensures
            final(self).wf(),
            final(self)@ == spec_reassign(old(self)@),
    {
        let ghost before = self.entries@;
        let mut i: usize = 0;
        while i < self.entries.len()
            invariant
                i <= self.entries@.len(),
                self.entries@.len() == before.len(),
                before.len() <= MAX_PACKS,
                forall|j: int| 0 <= j < i ==> self.entries@[j] == readdressed(before[j], (j + 1) as u8),
                forall|j: int| i <= j < before.len() ==> self.entries@[j] == before[j],
            decreases self.entries@.len() - i,
        {
            let entry = self.entries[i];
            self.entries[i] = RegistryEntry {
                pack: BatteryPack {
                    address: (i + 1) as u8,
                    serial_number: entry.pack.serial_number,
                    part_number: entry.pack.part_number,
                },
                age: entry.age,
            };
            i += 1;
        }
        proof {
            lemma_reassign_keeps_wf(before);
        }
    }
}

/// Putting a new pack at its rank keeps the registry's invariant.
pub proof fn lemma_insert_keeps_wf(entries: Seq<RegistryEntry>, serial_number: u32, part_number: u32)
    requires
        registry_wf(entries),
        spec_observation(entries, serial_number) == Observation::Added,
    ensures
        registry_wf(spec_observe(entries, serial_number, part_number)),
        spec_observe(entries, serial_number, part_number).len() == entries.len() + 1,
{
    lemma_rank_splits(entries, serial_number);
    let at = rank(entries, serial_number) as int;
    entries.insert_ensures(at, fresh_entry(serial_number, part_number));
}

/// Taking in an answer keeps the registry's invariant, whatever the answer.
pub proof fn lemma_observe_keeps_wf(entries: Seq<RegistryEntry>, serial_number: u32, part_number: u32)
    requires
        registry_wf(entries),
    ensures
        registry_wf(spec_observe(entries, serial_number, part_number)),
{
    lemma_rank_splits(entries, serial_number);
    match spec_observation(entries, serial_number) {
        Observation::Added => {
            lemma_insert_keeps_wf(entries, serial_number, part_number);
        },
        Observation::Rejected => {},
        Observation::Refreshed => {},
    }
}

/// After an answer the registry holds what it held before and, unless it
/// was full, the pack that answered.
pub proof fn lemma_observe_holds(
    entries: Seq<RegistryEntry>,
    serial_number: u32,
    part_number: u32,
    other: u32,
)
    requires
        registry_wf(entries),
    ensures
        holds_serial(spec_observe(entries, serial_number, part_number), other) <==> holds_serial(
            entries,
            other,
        ) || (other == serial_number && spec_observation(entries, serial_number)
            != Observation::Rejected),
{
    lemma_rank_splits(entries, serial_number);
    let at = rank(entries, serial_number) as int;
    let after = spec_observe(entries, serial_number, part_number);
    match spec_observation(entries, serial_number) {
        Observation::Rejected => {},
        Observation::Refreshed => {
            if holds_serial(entries, other) {
                let i = choose|i: int|
                    0 <= i < entries.len() && (#[trigger] entries[i]).pack.serial_number == other;
                assert(after[i].pack.serial_number == other);
            }
            if holds_serial(after, other) {
                let i = choose|i: int|
                    0 <= i < after.len() && (#[trigger] after[i]).pack.serial_number == other;
                assert(entries[i].pack.serial_number == other);
            }
        },
        Observation::Added => {
            entries.insert_ensures(at, fresh_entry(serial_number, part_number));
            if holds_serial(entries, other) {
                let i = choose|i: int|
                    0 <= i < entries.len() && (#[trigger] entries[i]).pack.serial_number == other;
                assert(after[if i < at { i } else { i + 1 }].pack.serial_number == other);
            }
            if other == serial_number {
                assert(after[at].pack.serial_number == other);
            }
            if holds_serial(after, other) && other != serial_number {
                let i = choose|i: int|
                    0 <= i < after.len() && (#[trigger] after[i]).pack.serial_number == other;
                assert(entries[if i < at { i } else { i - 1 }].pack.serial_number == other);
            }
        },
    }
}

/// The registry's contents after a run of answers, taken in one after the
/// other.
pub open spec fn spec_observe_all(entries: Seq<RegistryEntry>, answers: Seq<BatteryPack>) -> Seq<
    RegistryEntry,
>
    decreases answers.len(),
{
    if answers.len() == 0 {
        entries
    } else {
        spec_observe(
            spec_observe_all(entries, answers.drop_last()),
            answers.last().serial_number,
            answers.last().part_number,
        )
    }
}

/// Whether no two of `answers` have the same serial number.
pub open spec fn distinct_serials(answers: Seq<BatteryPack>) -> bool {
    forall|i: int, j: int|
        0 <= i < j < answers.len() ==> (#[trigger] answers[i]).serial_number != (
        #[trigger] answers[j]).serial_number
}

/// Whether one of `answers` has this serial number.
pub open spec fn answered(answers: Seq<BatteryPack>, serial_number: u32) -> bool {
    exists|i: int| 0 <= i < answers.len() && (#[trigger] answers[i]).serial_number == serial_number
}

/// Up to nine answers with different serial numbers, taken in by an empty
/// registry, leave it with one entry for each of them and no other.
pub proof fn lemma_distinct_answers_are_all_held(answers: Seq<BatteryPack>)
    requires
        answers.len() <= MAX_PACKS,
        distinct_serials(answers),
    ensures
        registry_wf(spec_observe_all(Seq::empty(), answers)),
        spec_observe_all(Seq::empty(), answers).len() == answers.len(),
        forall|serial_number: u32|
            holds_serial(spec_observe_all(Seq::empty(), answers), serial_number) <==> answered(
                answers,
                serial_number,
            ),
    decreases answers.len(),
{
    let empty = Seq::<RegistryEntry>::empty();
    if answers.len() > 0 {
        let earlier = answers.drop_last();
        let last = answers.last();
        let before = spec_observe_all(empty, earlier);
        let after = spec_observe_all(empty, answers);
        assert(distinct_serials(earlier)) by {
            assert forall|i: int, j: int| 0 <= i < j < earlier.len() implies (
            #[trigger] earlier[i]).serial_number != (#[trigger] earlier[j]).serial_number by {
                assert(answers[i].serial_number != answers[j].serial_number);
            }
        }
        lemma_distinct_answers_are_all_held(earlier);
        // the last answer is new to the registry, so it is put in
        assert(!holds_serial(before, last.serial_number)) by {
            if answered(earlier, last.serial_number) {
                let i = choose|i: int|
                    0 <= i < earlier.len() && (#[trigger] earlier[i]).serial_number
                        == last.serial_number;
                assert(answers[i].serial_number != answers[answers.len() - 1].serial_number);
            }
        }
        lemma_holds_serial_at_rank(before, last.serial_number);
        lemma_insert_keeps_wf(before, last.serial_number, last.part_number);
        assert forall|serial_number: u32|
            holds_serial(after, serial_number) <==> answered(answers, serial_number) by {
            lemma_observe_holds(before, last.serial_number, last.part_number, serial_number);
            if answered(earlier, serial_number) {
                let i = choose|i: int|
                    0 <= i < earlier.len() && (#[trigger] earlier[i]).serial_number == serial_number;
                assert(answers[i].serial_number == serial_number);
            }
            if serial_number == last.serial_number {
                assert(answers[answers.len() - 1].serial_number == serial_number);
            }
            if answered(answers, serial_number) && serial_number != last.serial_number {
                let i = choose|i: int|
                    0 <= i < answers.len() && (#[trigger] answers[i]).serial_number == serial_number;
                assert(earlier[i].serial_number == serial_number);
            }
        }
    }
}

/// A reassignment numbers the packs 1, 2, 3 and so on in ascending order of
/// their serial numbers: the pack at position `i` gets address `i + 1`, the
/// addresses are those from 1 to the number of packs, each once, and no pack
/// is lost or changed otherwise.
pub proof fn lemma_reassign_is_sequential(entries: Seq<RegistryEntry>)
    requires
        registry_wf(entries),
    ensures
        spec_reassign(entries).len() == entries.len(),
        ascending_serials(spec_reassign(entries)),
        forall|i: int|
            0 <= i < entries.len() ==> {
                &&& (#[trigger] spec_reassign(entries)[i]).pack.address == i + 1
                &&& spec_reassign(entries)[i].pack.serial_number == entries[i].pack.serial_number
                &&& spec_reassign(entries)[i].pack.part_number == entries[i].pack.part_number
                &&& spec_reassign(entries)[i].pack.spec_is_assigned()
            },
        forall|address: int|
            1 <= address <= entries.len() ==> (#[trigger] spec_reassign(entries)[address
                - 1]).pack.address == address,
        forall|serial_number: u32|
            holds_serial(spec_reassign(entries), serial_number) <==> holds_serial(
                entries,
                serial_number,
            ),
{
    let after = spec_reassign(entries);
    lemma_reassign_keeps_wf(entries);
    assert forall|serial_number: u32|
        holds_serial(after, serial_number) <==> holds_serial(entries, serial_number) by {
        if holds_serial(after, serial_number) {
            let i = choose|i: int|
                0 <= i < after.len() && (#[trigger] after[i]).pack.serial_number == serial_number;
            assert(entries[i].pack.serial_number == serial_number);
        }
        if holds_serial(entries, serial_number) {
            let i = choose|i: int|
                0 <= i < entries.len() && (#[trigger] entries[i]).pack.serial_number
                    == serial_number;
            assert(after[i].pack.serial_number == serial_number);
        }
    }
}

/// No two packs of a registry have the same serial number, and no two have
/// the same assigned address.
pub proof fn lemma_entries_are_unique(entries: Seq<RegistryEntry>, i: int, j: int)
    requires
        registry_wf(entries),
        0 <= i < entries.len(),
        0 <= j < entries.len(),
        i != j,
    ensures
        entries[i].pack.serial_number != entries[j].pack.serial_number,
        entries[i].pack.address != UNASSIGNED_ADDRESS ==> entries[i].pack.address
            != entries[j].pack.address,
{
}

/// If nothing is ever evicted, the end of a cycle loses no pack: the same
/// packs are there, one cycle older.
pub proof fn lemma_never_evicts(entries: Seq<RegistryEntry>)
    ensures
        spec_close_cycle(entries, EvictionPolicy::Never).len() == entries.len(),
        forall|i: int|
            0 <= i < entries.len() ==> #[trigger] spec_close_cycle(entries, EvictionPolicy::Never)[i]
                == aged(entries[i]),
    decreases entries.len(),
{
    if entries.len() > 0 {
        lemma_never_evicts(entries.drop_last());
    }
}

/// At the end of a cycle a pack stays exactly if its entry, one cycle older,
/// stays under the policy; and no pack appears.
pub proof fn lemma_close_cycle_holds(
    entries: Seq<RegistryEntry>,
    policy: EvictionPolicy,
    serial_number: u32,
)
    ensures
        spec_close_cycle(entries, policy).len() <= entries.len(),
        holds_serial(spec_close_cycle(entries, policy), serial_number) <==> exists|i: int|
            0 <= i < entries.len() && (#[trigger] entries[i]).pack.serial_number == serial_number
                && stays(policy, aged(entries[i])),
    decreases entries.len(),
{
    let after = spec_close_cycle(entries, policy);
    if entries.len() > 0 {
        let shorter = entries.drop_last();
        let last = entries.len() - 1;
        let rest = spec_close_cycle(shorter, policy);
        lemma_close_cycle_holds(shorter, policy, serial_number);
        if holds_serial(after, serial_number) {
            let k = choose|k: int|
                0 <= k < after.len() && (#[trigger] after[k]).pack.serial_number == serial_number;
            if k < rest.len() {
                assert(rest[k].pack.serial_number == serial_number);
                let i = choose|i: int|
                    0 <= i < shorter.len() && (#[trigger] shorter[i]).pack.serial_number
                        == serial_number && stays(policy, aged(shorter[i]));
                assert(entries[i].pack.serial_number == serial_number);
            } else {
                assert(entries[last].pack.serial_number == serial_number);
            }
        }
        if exists|i: int|
            0 <= i < entries.len() && (#[trigger] entries[i]).pack.serial_number == serial_number
                && stays(policy, aged(entries[i])) {
            let i = choose|i: int|
                0 <= i < entries.len() && (#[trigger] entries[i]).pack.serial_number
                    == serial_number && stays(policy, aged(entries[i]));
            if i < last {
                assert(shorter[i].pack.serial_number == serial_number && stays(
                    policy,
                    aged(shorter[i]),
                ));
                let k = choose|k: int|
                    0 <= k < rest.len() && (#[trigger] rest[k]).pack.serial_number == serial_number;
                assert(after[k].pack.serial_number == serial_number);
            } else {
                assert(after[after.len() - 1].pack.serial_number == serial_number);
            }
        }
    }
}

/// A pack that has just answered outlives the end of the cycle under every
/// policy that tolerates at least one missed cycle.
pub proof fn lemma_answering_pack_stays(entry: RegistryEntry, policy: EvictionPolicy)
    requires
        entry.age == 0,
        policy matches EvictionPolicy::AfterMissed { cycles } ==> cycles >= 1,
    ensures
        stays(policy, aged(entry)),
{
}

/// A reassignment keeps the registry's invariant.
pub proof fn lemma_reassign_keeps_wf(entries: Seq<RegistryEntry>)
    requires
        registry_wf(entries),
    ensures
        registry_wf(spec_reassign(entries)),
{
}

} // verus!
