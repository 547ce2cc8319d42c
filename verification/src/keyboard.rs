//! Telling keyboards apart from other input devices by the keys they report.
//!
//! Mice, touchpads, game pads and remote controls report key events too. A real
//! keyboard supports letters, Enter and the modifiers all at once, so a few keys
//! that stand for them rule the others out.

use vstd::prelude::*;

use crate::keymap::{KEY_A, KEY_ENTER, KEY_LEFTCTRL, KEY_Z};

verus! {

/// Whether a device with these supported keys (`None`: it reports no keys) is a
/// keyboard: it supports A, Z, Enter and left Ctrl.
pub open spec fn spec_is_keyboard(supported_keys: Option<Seq<u16>>) -> bool {
    supported_keys matches Some(keys) && keys.contains(KEY_A) && keys.contains(KEY_Z)
        && keys.contains(KEY_ENTER) && keys.contains(KEY_LEFTCTRL)
}

/// Whether `key` is among `keys`.
fn supports(keys: &Vec<u16>, key: u16) -> (res: bool)
    ensures
        res == keys@.contains(key),
{
    let mut i: usize = 0;
    while i < keys.len()
        invariant
            i <= keys@.len(),
            forall|j: int| 0 <= j < i ==> keys@[j] != key,
        decreases keys@.len() - i,
    {
        if keys[i] == key {
            return true;
        }
        i = i + 1;
    }
    false
}

/// The view of a device's supported keys.
pub open spec fn keys_view(supported_keys: &Option<Vec<u16>>) -> Option<Seq<u16>> {
    match supported_keys {
        Some(keys) => Some(keys@),
        None => None,
    }
}

/// Whether a device with these supported keys is a keyboard.
pub fn is_keyboard(supported_keys: &Option<Vec<u16>>) -> (res: bool)
    ensures
        res == spec_is_keyboard(keys_view(supported_keys)),
{
    match supported_keys {
        Some(keys) => supports(keys, KEY_A) && supports(keys, KEY_Z) && supports(keys, KEY_ENTER)
            && supports(keys, KEY_LEFTCTRL),
        None => false,
    }
}

/// The positions, in order, of the keyboards among devices given by their
/// supported keys.
pub fn find_keyboards(devices: &Vec<Option<Vec<u16>>>) -> (res: Vec<usize>)
    ensures
        forall|i: int| 0 <= i < res@.len() ==> res@[i] < devices@.len(),
        forall|i: int, j: int| 0 <= i < j < res@.len() ==> res@[i] < res@[j],
        forall|i: int|
            0 <= i < res@.len() ==> spec_is_keyboard(keys_view(&#[trigger] devices@[res@[i] as int])),
        forall|d: int|
            0 <= d < devices@.len() && spec_is_keyboard(keys_view(&devices@[d])) ==> res@.contains(
                d as usize,
            ),
{
    let mut res: Vec<usize> = Vec::new();
    let mut d: usize = 0;
    while d < devices.len()
        invariant
            d <= devices@.len(),
            forall|i: int| 0 <= i < res@.len() ==> res@[i] < d,
            forall|i: int, j: int| 0 <= i < j < res@.len() ==> res@[i] < res@[j],
            forall|i: int|
                0 <= i < res@.len() ==> spec_is_keyboard(
                    keys_view(&#[trigger] devices@[res@[i] as int]),
                ),
            forall|e: int|
                0 <= e < d && spec_is_keyboard(keys_view(&devices@[e])) ==> res@.contains(
                    e as usize,
                ),
        decreases devices@.len() - d,
    {
        let ghost before = res@;
        if is_keyboard(&devices[d]) {
            res.push(d);
            assert(res@[res@.len() - 1] == d);
        }
        proof {
            assert forall|e: int|
                0 <= e < d + 1 && spec_is_keyboard(keys_view(&devices@[e])) implies res@.contains(
                e as usize,
            ) by {
                if e == d {
                    assert(res@[res@.len() - 1] == d);
                } else {
                    assert(before.contains(e as usize));
                    let k = choose|k: int| 0 <= k < before.len() && before[k] == e as usize;
                    assert(res@[k] == e as usize);
                }
            }
        }
        d = d + 1;
    }
    res
}

/// Law: a keyboard supports A (30), Z (44), Enter (28) and left Ctrl (29); a device
/// that lacks any of them, or reports no keys, is none.
pub proof fn lemma_keyboard_keys(keys: Seq<u16>)
    ensures
        spec_is_keyboard(Some(keys)) <==> (keys.contains(30) && keys.contains(44) && keys.contains(28)
            && keys.contains(29)),
        !spec_is_keyboard(None),
{
}

} // verus!
