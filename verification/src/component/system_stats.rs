//! The system's own figures: which network interface to watch.

use vstd::prelude::*;

verus! {

/// The names of `interfaces`, as sequences of characters.
pub open spec fn names_of(interfaces: Seq<String>) -> Seq<Seq<char>> {
    Seq::new(interfaces.len(), |i: int| interfaces[i]@)
}

/// Whether one of `names` is `name`.
pub open spec fn is_among(names: Seq<Seq<char>>, name: Seq<char>) -> bool {
    exists|i: int| 0 <= i < names.len() && #[trigger] names[i] == name
}

/// The interface to watch.
///
/// A configured name is taken as it is. The word `auto` asks for a choice:
/// the interface `usb0`, which is the cellular modem, if the system has it;
/// else the first interface that the system has; else `auto` stays.
pub open spec fn spec_choose_interface(configured: Seq<char>, available: Seq<Seq<char>>) -> Seq<
    char,
> {
    if configured != "auto"@ {
        configured
    } else if is_among(available, "usb0"@) {
        "usb0"@
    } else if available.len() > 0 {
        available[0]
    } else {
        configured
    }
}

/// Chooses the interface to watch from the configured name and the names of
/// the interfaces that the system has, in the system's order.
pub fn choose_interface(configured: &String, available: &Vec<String>) -> (chosen: String)
    ensures
        chosen@ == spec_choose_interface(configured@, names_of(available@)),
{
    let auto = "auto".to_owned();
    if !(*configured == auto) {
        return configured.clone();
    }
    let modem = "usb0".to_owned();
    let mut i: usize = 0;
    while i < available.len()
        invariant
            i <= available@.len(),
            modem@ == "usb0"@,
            configured@ == "auto"@,
            forall|j: int| 0 <= j < i ==> #[trigger] names_of(available@)[j] != "usb0"@,
        decreases available@.len() - i,
    {
        if available[i] == modem {
            assert(names_of(available@)[i as int] == "usb0"@);
            return modem;
        }
        i += 1;
    }
    if available.len() > 0 {
        assert(names_of(available@)[0] == available@[0]@);
        available[0].clone()
    } else {
        configured.clone()
    }
}

} // verus!
