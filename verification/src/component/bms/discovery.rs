//! The discovery and addressing protocol.
//!
//! Once per polling cycle the number of packs in the registry is held
//! against the number at the cycle before. While it stays the same nothing
//! happens. When it has changed, every pack gets a new address, in ascending
//! order of the serial numbers, and is told so; the change is counted, and
//! the count reaching two is reported, once.

use crate::component::bms::error::BmsError;
use crate::component::bms::registry::{
    answered, ascending_serials, distinct_serials, holds_serial, lemma_distinct_answers_are_all_held,
    lemma_reassign_is_sequential, lemma_reassign_keeps_wf, registry_wf, spec_observe_all,
    spec_reassign, DeviceRegistry, RegistryEntry, MAX_PACKS,
};
use crate::component::bms::request::PollRequest;
use crate::component::bms::structs::BatteryPack;
use vstd::prelude::*;

verus! {

/// How many reassignments make a storm.
pub const STORM_THRESHOLD: u32 = 2;

/// The two states of the protocol.
#[derive(Clone, Copy, Debug, PartialEq, Eq, Structural)]
pub enum DiscoveryState {
    /// Nothing has changed; the packs are polled as they are.
    Idle,
    /// The addresses have just been reassigned and the commands that tell
    /// the packs are on their way.
    Rediscovering,
}

/// What the protocol remembers from one cycle to the next.
#[derive(Clone, Copy, Debug, PartialEq, Eq, Structural)]
pub struct Discovery {
    pub state: DiscoveryState,
    /// The number of packs in the registry at the last comparison.
    pub previous_count: usize,
    /// How many times the addresses have been reassigned in the monitored
    /// window. It stops counting at the largest number it can hold.
    pub reconfigurations: u32,
}

/// What one comparison asks for.
#[derive(Debug)]
pub struct Reconfiguration {
    /// The commands to send, one per pack, in ascending order of the serial
    /// numbers. Empty if nothing has changed.
    pub commands: Vec<PollRequest>,
    /// The storm warning, if this reassignment was the one that made the
    /// count reach the threshold.
    pub warning: Option<BmsError>,
}

/// The commands that tell each pack of `entries` its address and the number
/// of packs.
pub open spec fn spec_set_address_commands(entries: Seq<RegistryEntry>) -> Seq<PollRequest> {
    Seq::new(
        entries.len(),
        |i: int|
            PollRequest::SetAddress {
                serial_number: entries[i].pack.serial_number,
                address: entries[i].pack.address,
                pack_count: entries.len() as u8,
            },
    )
}

impl Discovery {
    /// Whether a registry of `count` packs differs in size from the one at
    /// the last comparison.
    pub open spec fn size_changed(self, count: nat) -> bool {
        count != self.previous_count
    }

    /// The count of reassignments after one more.
    pub open spec fn counted(self) -> u32 {
        if self.reconfigurations < u32::MAX {
            (self.reconfigurations + 1) as u32
        } else {
            self.reconfigurations
        }
    }

    /// What is remembered after a comparison against a registry of `count`
    /// packs.
    pub open spec fn spec_compared(self, count: usize) -> Discovery {
        if self.size_changed(count as nat) {
            Discovery {
                state: DiscoveryState::Rediscovering,
                previous_count: count,
                reconfigurations: self.counted(),
            }
        } else {
            Discovery {
                state: DiscoveryState::Idle,
                previous_count: count,
                reconfigurations: self.reconfigurations,
            }
        }
    }

    /// Whether a comparison against a registry of `count` packs gives the
    /// storm warning: the size has changed, and with this change the count
    /// reaches the threshold.
    pub open spec fn spec_warns(self, count: usize) -> bool {
        self.size_changed(count as nat) && self.reconfigurations + 1 == STORM_THRESHOLD
    }

    /// The registry's contents after a comparison.
    pub open spec fn spec_entries_after(self, entries: Seq<RegistryEntry>) -> Seq<RegistryEntry> {
        if self.size_changed(entries.len()) {
            spec_reassign(entries)
        } else {
            entries
        }
    }

    /// The commands that a comparison asks for.
    pub open spec fn spec_commands(self, entries: Seq<RegistryEntry>) -> Seq<PollRequest> {
        if self.size_changed(entries.len()) {
            spec_set_address_commands(spec_reassign(entries))
        } else {
            Seq::empty()
        }
    }

    /// The warning that a comparison gives.
    pub open spec fn spec_warning(self, count: usize) -> Option<BmsError> {
        if self.spec_warns(count) {
            Some(BmsError::RegistryReconfigurationStorm)
        } else {
            None
        }
    }

    /// The protocol at the start: idle, no pack seen, nothing counted.
    pub fn new() -> (discovery: Discovery)
        ensures
            discovery == (Discovery {
                state: DiscoveryState::Idle,
                previous_count: 0,
                reconfigurations: 0,
            }),
    {
        Discovery { state: DiscoveryState::Idle, previous_count: 0, reconfigurations: 0 }
    }

    /// Starts a new monitored window: the count of reassignments is zero
    /// again, so the warning can come again.
    pub fn start_window(&mut self)
        ensures
            *final(self) == (Discovery { reconfigurations: 0, ..*old(self) }),
    {
        self.reconfigurations = 0;
    }

    /// Returns to idle once the commands of a reassignment have been handed
    /// out.
    pub fn settle(&mut self)
        ensures
            *final(self) == (Discovery { state: DiscoveryState::Idle, ..*old(self) }),
    {
        self.state = DiscoveryState::Idle;
    }

    /// Holds the size of the registry against the size at the last
    /// comparison.
    ///
    /// If the size is the same, the registry stays as it is and nothing is
    /// asked for. If it has changed, the packs are numbered anew from 1 in
    /// ascending order of their serial numbers, one command per pack is
    /// asked for, and the change is counted. The warning comes with the
    /// change that makes the count two, and with no other.
    pub fn compare(&mut self, registry: &mut DeviceRegistry) -> (asked: Reconfiguration)
        requires
            old(registry).wf(),
        ensures
            final(registry).wf(),
            final(registry)@ == old(self).spec_entries_after(old(registry)@),
            *final(self) == old(self).spec_compared(old(registry)@.len() as usize),
            asked.commands@ == old(self).spec_commands(old(registry)@),
            asked.warning == old(self).spec_warning(old(registry)@.len() as usize),
    {
        let count = registry.len();
        let mut commands: Vec<PollRequest> = Vec::new();
        if count == self.previous_count {
            self.state = DiscoveryState::Idle;
            return Reconfiguration { commands, warning: None };
        }
        registry.reassign();
        proof {
            lemma_reassign_is_sequential(old(registry)@);
        }
        let mut i: usize = 0;
        while i < count
            invariant
                i <= count,
                count == registry@.len(),
                count <= MAX_PACKS,
                commands@.len() == i,
                forall|j: int|
                    0 <= j < i ==> commands@[j] == #[trigger] spec_set_address_commands(registry@)[j],
            decreases count - i,
        {
            match registry.entry(i) {
                Some(entry) => {
                    commands.push(
                        PollRequest::SetAddress {
                            serial_number: entry.pack.serial_number,
                            address: entry.pack.address,
                            pack_count: count as u8,
                        },
                    );
                },
                None => {},
            }
            i += 1;
        }
        let warning = if self.reconfigurations == STORM_THRESHOLD - 1 {
            Some(BmsError::RegistryReconfigurationStorm)
        } else {
            None
        };
        if self.reconfigurations < u32::MAX {
            self.reconfigurations = self.reconfigurations + 1;
        }
        self.previous_count = count;
        self.state = DiscoveryState::Rediscovering;
        Reconfiguration { commands, warning }
    }
}

/// How many of `sizes` differ from the size before them, where `previous`
/// comes before the first.
pub open spec fn changes_in(previous: usize, sizes: Seq<usize>) -> nat
    decreases sizes.len(),
{
    if sizes.len() == 0 {
        0
    } else if sizes[0] != previous {
        1 + changes_in(sizes[0], sizes.drop_first())
    } else {
        changes_in(sizes[0], sizes.drop_first())
    }
}

/// How many warnings a run of comparisons gives, where `sizes` are the sizes
/// of the registry at one comparison after the other.
pub open spec fn warnings_in(discovery: Discovery, sizes: Seq<usize>) -> nat
    decreases sizes.len(),
{
    if sizes.len() == 0 {
        0
    } else if discovery.spec_warns(sizes[0]) {
        1 + warnings_in(discovery.spec_compared(sizes[0]), sizes.drop_first())
    } else {
        warnings_in(discovery.spec_compared(sizes[0]), sizes.drop_first())
    }
}

/// Over any run of comparisons the warning comes once if the count of
/// reassignments crosses the threshold in the run, and not at all otherwise,
/// however many changes follow the crossing.
pub proof fn lemma_one_warning_per_crossing(discovery: Discovery, sizes: Seq<usize>)
    ensures
        warnings_in(discovery, sizes) == if discovery.reconfigurations < STORM_THRESHOLD
            && discovery.reconfigurations + changes_in(discovery.previous_count, sizes)
            >= STORM_THRESHOLD {
            1nat
        } else {
            0nat
        },
    decreases sizes.len(),
{
    if sizes.len() > 0 {
        lemma_one_warning_per_crossing(discovery.spec_compared(sizes[0]), sizes.drop_first());
    }
}

/// In a window that starts with nothing counted, the warning comes exactly
/// once if the size of the registry changes twice or more, and never if it
/// changes less often.
pub proof fn lemma_storm_warning_once(discovery: Discovery, sizes: Seq<usize>)
    requires
        discovery.reconfigurations == 0,
    ensures
        changes_in(discovery.previous_count, sizes) >= 2 ==> warnings_in(discovery, sizes) == 1,
        changes_in(discovery.previous_count, sizes) < 2 ==> warnings_in(discovery, sizes) == 0,
{
    lemma_one_warning_per_crossing(discovery, sizes);
}

/// Packs that answer before any address is assigned are all numbered at the
/// next comparison.
///
/// Let up to nine answers with different serial numbers come to an empty
/// registry, and let the registry then be compared for the first time. It
/// holds one entry for each answer and no other; the entry at position `i`
/// has address `i + 1`, so the addresses are those from 1 to the number of
/// answers, each once; and the serial numbers ascend with the addresses.
pub proof fn lemma_new_packs_are_numbered(answers: Seq<BatteryPack>)
    requires
        1 <= answers.len() <= MAX_PACKS,
        distinct_serials(answers),
    ensures
        ({
            let held = spec_observe_all(Seq::empty(), answers);
            let start = Discovery {
                state: DiscoveryState::Idle,
                previous_count: 0,
                reconfigurations: 0,
            };
            let numbered = start.spec_entries_after(held);
            &&& held.len() == answers.len()
            &&& numbered.len() == answers.len()
            &&& registry_wf(numbered)
            &&& ascending_serials(numbered)
            &&& forall|i: int|
                0 <= i < numbered.len() ==> (#[trigger] numbered[i]).pack.address == i + 1
            &&& forall|serial_number: u32|
                holds_serial(numbered, serial_number) <==> answered(answers, serial_number)
            &&& start.spec_commands(held).len() == answers.len()
        }),
{
    let held = spec_observe_all(Seq::empty(), answers);
    lemma_distinct_answers_are_all_held(answers);
    lemma_reassign_is_sequential(held);
    lemma_reassign_keeps_wf(held);
}

/// The commands of a reassignment: one per pack, in ascending order of the
/// serial numbers, the `i`-th with address `i + 1` and with the number of
/// packs.
pub proof fn lemma_commands_number_the_packs(entries: Seq<RegistryEntry>)
    requires
        registry_wf(entries),
    ensures
        spec_set_address_commands(spec_reassign(entries)).len() == entries.len(),
        forall|i: int|
            0 <= i < entries.len() ==> #[trigger] spec_set_address_commands(spec_reassign(entries))[i]
                == (PollRequest::SetAddress {
                serial_number: entries[i].pack.serial_number,
                address: (i + 1) as u8,
                pack_count: entries.len() as u8,
            }),
{
}

} // verus!
