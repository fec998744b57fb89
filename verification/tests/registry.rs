use boat_core::component::bms::registry::{
    DeviceRegistry, EvictionPolicy, Observation, RegistryEntry,
};
use boat_core::component::bms::structs::BatteryPack;

fn pack(address: u8, serial_number: u32, part_number: u32) -> BatteryPack {
    BatteryPack { address, serial_number, part_number }
}

#[test]
fn new_registry_is_empty() {
    let registry = DeviceRegistry::new();
    assert_eq!(registry.len(), 0);
    assert!(registry.is_empty());
    assert_eq!(registry.packs(), vec![]);
    assert_eq!(registry.entry(0), None);
    assert_eq!(registry.find(1), None);
}

#[test]
fn answers_are_kept_in_ascending_order_of_serial_numbers() {
    let mut registry = DeviceRegistry::new();
    assert_eq!(registry.observe(300, 3), Observation::Added);
    assert_eq!(registry.observe(100, 1), Observation::Added);
    assert_eq!(registry.observe(200, 2), Observation::Added);
    assert_eq!(registry.observe(u32::MAX, 9), Observation::Added);
    assert_eq!(registry.observe(0, 0), Observation::Added);
    assert_eq!(registry.len(), 5);
    assert_eq!(
        registry.packs(),
        vec![pack(0, 0, 0), pack(0, 100, 1), pack(0, 200, 2), pack(0, 300, 3), pack(0, u32::MAX, 9)]
    );
    assert_eq!(registry.find(200), Some(pack(0, 200, 2)));
    assert_eq!(registry.find(201), None);
    assert_eq!(registry.entry(4), Some(RegistryEntry { pack: pack(0, u32::MAX, 9), age: 0 }));
    assert_eq!(registry.entry(5), None);
}

#[test]
fn distinct_answers_give_as_many_entries_and_addresses_from_one() {
    let serials = [907u32, 12, 4401, 300, 5, 88, 1001];
    let mut registry = DeviceRegistry::new();
    for (i, serial) in serials.iter().enumerate() {
        assert_eq!(registry.observe(*serial, i as u32), Observation::Added);
    }
    assert_eq!(registry.len(), serials.len());
    registry.reassign();
    let packs = registry.packs();
    assert_eq!(packs.len(), serials.len());
    let mut sorted = serials.to_vec();
    sorted.sort();
    for (i, p) in packs.iter().enumerate() {
        assert_eq!(p.address as usize, i + 1);
        assert_eq!(p.serial_number, sorted[i]);
        assert!(p.is_assigned());
    }
}

#[test]
fn the_same_packs_get_the_same_addresses_in_any_order_of_arrival() {
    let mut first = DeviceRegistry::new();
    let mut second = DeviceRegistry::new();
    for serial in [3u32, 1, 2] {
        first.observe(serial, serial * 10);
    }
    for serial in [2u32, 3, 1] {
        second.observe(serial, serial * 10);
    }
    first.reassign();
    second.reassign();
    assert_eq!(first.packs(), second.packs());
    assert_eq!(first.packs(), vec![pack(1, 1, 10), pack(2, 2, 20), pack(3, 3, 30)]);
}

#[test]
fn a_known_pack_is_refreshed_and_keeps_its_address() {
    let mut registry = DeviceRegistry::new();
    registry.observe(10, 1);
    registry.observe(20, 2);
    registry.reassign();
    registry.close_cycle(EvictionPolicy::Never);
    assert_eq!(registry.entry(1), Some(RegistryEntry { pack: pack(2, 20, 2), age: 1 }));
    assert_eq!(registry.observe(20, 77), Observation::Refreshed);
    assert_eq!(registry.len(), 2);
    assert_eq!(registry.entry(1), Some(RegistryEntry { pack: pack(2, 20, 77), age: 0 }));
    assert_eq!(registry.entry(0), Some(RegistryEntry { pack: pack(1, 10, 1), age: 1 }));
}

#[test]
fn a_tenth_pack_is_rejected() {
    let mut registry = DeviceRegistry::new();
    for serial in 1u32..=9 {
        assert_eq!(registry.observe(serial * 2, 0), Observation::Added);
    }
    assert_eq!(registry.observe(5, 0), Observation::Rejected);
    assert_eq!(registry.observe(100, 0), Observation::Rejected);
    assert_eq!(registry.len(), 9);
    assert_eq!(registry.find(5), None);
    // a known pack is still refreshed
    assert_eq!(registry.observe(4, 1), Observation::Refreshed);
    assert_eq!(registry.find(4), Some(pack(0, 4, 1)));
}

#[test]
fn a_new_pack_between_numbered_packs_has_no_address_until_the_next_reassignment() {
    let mut registry = DeviceRegistry::new();
    registry.observe(10, 0);
    registry.observe(30, 0);
    registry.reassign();
    registry.observe(20, 0);
    assert_eq!(registry.packs(), vec![pack(1, 10, 0), pack(0, 20, 0), pack(2, 30, 0)]);
    registry.reassign();
    assert_eq!(registry.packs(), vec![pack(1, 10, 0), pack(2, 20, 0), pack(3, 30, 0)]);
}

#[test]
fn nothing_is_evicted_if_the_policy_says_never() {
    let mut registry = DeviceRegistry::new();
    registry.observe(1, 0);
    registry.observe(2, 0);
    for round in 1u32..=50 {
        assert_eq!(registry.close_cycle(EvictionPolicy::Never), 0);
        assert_eq!(registry.len(), 2);
        assert_eq!(registry.entry(0).unwrap().age, round);
    }
}

#[test]
fn a_silent_pack_is_evicted_after_the_cycles_it_may_miss() {
    let policy = EvictionPolicy::AfterMissed { cycles: 2 };
    let mut registry = DeviceRegistry::new();
    registry.observe(1, 0);
    registry.observe(2, 0);
    registry.observe(3, 0);
    // the cycle in which the packs answered ends
    assert_eq!(registry.close_cycle(policy), 0);
    // pack 2 keeps answering, packs 1 and 3 fall silent
    registry.observe(2, 0);
    assert_eq!(registry.close_cycle(policy), 0);
    registry.observe(2, 0);
    assert_eq!(registry.close_cycle(policy), 2);
    assert_eq!(registry.packs(), vec![pack(0, 2, 0)]);
    registry.observe(2, 0);
    assert_eq!(registry.close_cycle(policy), 0);
    assert_eq!(registry.len(), 1);
}

#[test]
fn a_pack_that_answers_every_cycle_is_never_evicted() {
    let policy = EvictionPolicy::AfterMissed { cycles: 1 };
    let mut registry = DeviceRegistry::new();
    for _ in 0..20 {
        registry.observe(42, 0);
        assert_eq!(registry.close_cycle(policy), 0);
        assert_eq!(registry.len(), 1);
    }
    // one missed cycle is enough under this policy
    assert_eq!(registry.close_cycle(policy), 1);
    assert!(registry.is_empty());
}

#[test]
fn eviction_keeps_the_order_and_the_addresses_of_the_rest() {
    let policy = EvictionPolicy::AfterMissed { cycles: 1 };
    let mut registry = DeviceRegistry::new();
    for serial in [5u32, 6, 7, 8] {
        registry.observe(serial, 0);
    }
    registry.reassign();
    registry.close_cycle(policy);
    registry.observe(5, 0);
    registry.observe(8, 0);
    assert_eq!(registry.close_cycle(policy), 2);
    assert_eq!(registry.packs(), vec![pack(1, 5, 0), pack(4, 8, 0)]);
    registry.reassign();
    assert_eq!(registry.packs(), vec![pack(1, 5, 0), pack(2, 8, 0)]);
}

#[test]
fn age_stops_at_the_largest_number() {
    let mut registry = DeviceRegistry::new();
    registry.observe(1, 0);
    registry.close_cycle(EvictionPolicy::AfterMissed { cycles: u32::MAX });
    assert_eq!(registry.entry(0).unwrap().age, 1);
    assert_eq!(registry.len(), 1);
}
