//! Which of the input devices found at startup are listened to.
//!
//! Devices cannot be added later, so only the built-in keyboard and touchpad
//! are worth listening to. The list of their names is a value, not code: a
//! caller may pass another one.

use vstd::prelude::*;
use vstd::string::StringExecFns;

verus! {

/// What is read of an input device: the name it reports, if it reports one,
/// and its product identifier.
#[derive(Debug, PartialEq, Eq)]
pub struct InputDevice {
    pub name: Option<String>,
    pub product: u16,
}

/// A device to listen to: its position among the devices found, and the
/// token under which its readiness is registered.
#[derive(Clone, Copy, Debug, PartialEq, Eq, Structural)]
pub struct Registration {
    pub index: usize,
    pub token: usize,
}

/// Whether `name` is one of the names in `allowed`.
pub open spec fn listed(name: Seq<char>, allowed: Seq<String>) -> bool {
    exists|i: int| 0 <= i < allowed.len() && (#[trigger] allowed[i])@ == name
}

/// Whether `device` is listened to: it reports a name, and the name is in
/// `allowed`.
pub open spec fn selected(device: InputDevice, allowed: Seq<String>) -> bool {
    device.name matches Some(name) && listed(name@, allowed)
}

/// The registrations for `devices`: one for each selected device, in the
/// order of the devices, with the product identifier as the token.
pub open spec fn registrations(
    devices: Seq<InputDevice>,
    allowed: Seq<String>,
) -> Seq<Registration>
    decreases devices.len(),
{
    if devices.len() == 0 {
        Seq::empty()
    } else {
        let before = registrations(devices.drop_last(), allowed);
        if selected(devices.last(), allowed) {
            before.push(
                Registration {
                    index: (devices.len() - 1) as usize,
                    token: devices.last().product as usize,
                },
            )
        } else {
            before
        }
    }
}

/// The names of the built-in touchpad and keyboard.
pub fn builtin_device_names() -> (names: Vec<String>)
    ensures
        names@.len() == 2,
        names@[0]@ == "PIXA3854:00 093A:0274 Touchpad"@,
        names@[1]@ == "AT Translated Set 2 keyboard"@,
{
    let mut names: Vec<String> = Vec::new();
    names.push(String::from_str("PIXA3854:00 093A:0274 Touchpad"));
    names.push(String::from_str("AT Translated Set 2 keyboard"));
    names
}

/// Looks `name` up in `allowed`.
pub fn is_listed(name: &String, allowed: &Vec<String>) -> (found: bool)
    ensures
        found == listed(name@, allowed@),
{
    let mut i: usize = 0;
    while i < allowed.len()
        invariant
            i <= allowed.len(),
            forall|j: int| 0 <= j < i ==> (#[trigger] allowed@[j])@ != name@,
        decreases allowed.len() - i,
    {
        if allowed[i] == *name {
            return true;
        }
        i += 1;
    }
    false
}

/// Picks the devices to listen to and gives each its token.
pub fn select_devices(
    devices: &Vec<InputDevice>,
    allowed: &Vec<String>,
) -> (chosen: Vec<Registration>)
    ensures
        chosen@ == registrations(devices@, allowed@),
{
    let mut chosen: Vec<Registration> = Vec::new();
    let mut i: usize = 0;
    while i < devices.len()
        invariant
            i <= devices.len(),
            chosen@ == registrations(devices@.take(i as int), allowed@),
        decreases devices.len() - i,
    {
        let keep = match &devices[i].name {
            Some(name) => is_listed(name, allowed),
            None => false,
        };
        proof {
            assert(devices@.take(i + 1).drop_last() =~= devices@.take(i as int));
        }
        if keep {
            chosen.push(Registration { index: i, token: devices[i].product as usize });
        }
        i += 1;
    }
    proof {
        assert(devices@.take(i as int) =~= devices@);
    }
    chosen
}

/// Every registration stands for a selected device and carries its product
/// identifier as the token; the registrations come in the order of the
/// devices; and no selected device is left out.
pub proof fn lemma_registrations_are_the_selected(devices: Seq<InputDevice>, allowed: Seq<String>)
    requires
        devices.len() <= usize::MAX,
    ensures
        ({
            let chosen = registrations(devices, allowed);
            &&& forall|k: int|
                0 <= k < chosen.len() ==> {
                    let at = (#[trigger] chosen[k]).index as int;
                    &&& 0 <= at < devices.len()
                    &&& selected(devices[at], allowed)
                    &&& chosen[k].token == devices[at].product
                }
            &&& forall|k: int, l: int|
                0 <= k < l < chosen.len() ==> (#[trigger] chosen[k]).index < (
                #[trigger] chosen[l]).index
            &&& forall|i: int|
                0 <= i < devices.len() && selected(#[trigger] devices[i], allowed)
                    ==> exists|k: int| 0 <= k < chosen.len() && (#[trigger] chosen[k]).index == i
        }),
    decreases devices.len(),
{
    if devices.len() > 0 {
        let shorter = devices.drop_last();
        let before = registrations(shorter, allowed);
        let chosen = registrations(devices, allowed);
        lemma_registrations_are_the_selected(shorter, allowed);
        assert forall|i: int|
            0 <= i < devices.len() && selected(#[trigger] devices[i], allowed)
            implies exists|k: int| 0 <= k < chosen.len() && (#[trigger] chosen[k]).index == i by {
            if i < shorter.len() {
                assert(selected(shorter[i], allowed));
                let k = choose|k: int| 0 <= k < before.len() && (#[trigger] before[k]).index == i;
                assert(chosen[k].index == i);
            } else {
                assert(chosen[chosen.len() - 1].index == i);
            }
        }
    }
}

} // verus!
