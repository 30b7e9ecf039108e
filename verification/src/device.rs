//! Device registry: stable identifiers for enumerated input devices, and
//! resolution of a stored device id against a fresh enumeration.

use vstd::prelude::*;
use crate::models::AudioDevice;

verus! {

/// Derive a stable identifier for every enumerated input device.
///
/// The identifier is the device's own durable name, never a freshly random
/// value, so enumerating twice yields the same identifiers and a device id
/// stored in settings stays resolvable.
pub fn assign_stable_ids(names: &Vec<String>) -> (r: Vec<AudioDevice>)
    ensures
        r@.len() == names@.len(),
        forall|i: int|
            0 <= i < r@.len() ==> r@[i].name@ == names@[i]@ && r@[i].id@ == names@[i]@,
{
    let mut out: Vec<AudioDevice> = Vec::new();
    let mut i: usize = 0;
    while i < names.len()
        invariant
            i <= names@.len(),
            out@.len() == i,
            forall|j: int|
                0 <= j < i ==> out@[j].name@ == names@[j]@ && out@[j].id@ == names@[j]@,
        decreases names@.len() - i,
    {
        let name = names[i].clone();
        let id = names[i].clone();
        out.push(AudioDevice { name, id });
        i = i + 1;
    }
    out
}

/// Stability of the registry: identifiers are a function of the durable
/// device names alone, so two enumerations that report the same names carry
/// the same identifiers.
pub proof fn lemma_ids_stable(
    names: Seq<Seq<char>>,
    a: Seq<AudioDevice>,
    b: Seq<AudioDevice>,
)
    requires
        a.len() == names.len(),
        b.len() == names.len(),
        forall|i: int| 0 <= i < a.len() ==> a[i].id@ == names[i],
        forall|i: int| 0 <= i < b.len() ==> b[i].id@ == names[i],
    ensures
        forall|i: int| 0 <= i < names.len() ==> a[i].id@ == b[i].id@,
{
    assert forall|i: int| 0 <= i < names.len() implies a[i].id@ == b[i].id@ by {
        assert(a[i].id@ == names[i]);
        assert(b[i].id@ == names[i]);
    }
}

/// Resolve a stored device id against an enumeration: the first device whose
/// identifier matches, if any.
pub fn find_device(devices: &Vec<AudioDevice>, id: &String) -> (r: Option<usize>)
    ensures
        match r {
            Some(i) => i < devices@.len() && devices@[i as int].id@ == id@ && forall|j: int|
                0 <= j < i ==> devices@[j].id@ != id@,
            None => forall|j: int| 0 <= j < devices@.len() ==> devices@[j].id@ != id@,
        },
{
    let mut i: usize = 0;
    while i < devices.len()
        invariant
            i <= devices@.len(),
            forall|j: int| 0 <= j < i ==> devices@[j].id@ != id@,
        decreases devices@.len() - i,
    {
        if devices[i].id == *id {
            return Some(i);
        }
        i = i + 1;
    }
    None
}

} // verus!
