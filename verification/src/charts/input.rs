//! Keyboard input seen by the drawing selection logic.

use vstd::prelude::*;

verus! {

/// One input event of a frame, as far as the drawing logic reads it: a key
/// going down or up, or anything else. `K` is the key type of the UI toolkit.
#[derive(Debug, Clone, Copy, PartialEq)]
pub enum InputEvent<K> {
    Key { key: K, pressed: bool },
    Other,
}

/// The event is a key being pressed down.
pub open spec fn is_key_press<K>(e: InputEvent<K>) -> bool {
    e matches InputEvent::Key { pressed, .. } && pressed
}

/// The key of the first key press among `events`, if there is one.
pub fn first_consumed_key<K: Copy>(events: &[InputEvent<K>]) -> (r: Option<K>)
    ensures
        r is None <==> forall|i: int| 0 <= i < events@.len() ==> !is_key_press(#[trigger] events@[i]),
        r matches Some(k) ==> exists|i: int|
            0 <= i < events@.len() && is_key_press(#[trigger] events@[i]) && events@[i]->key == k
                && forall|j: int| 0 <= j < i ==> !is_key_press(#[trigger] events@[j]),
{
    let mut i: usize = 0;
    while i < events.len()
        invariant
            i <= events@.len(),
            forall|j: int| 0 <= j < i ==> !is_key_press(#[trigger] events@[j]),
        decreases events@.len() - i,
    {
        match events[i] {
            InputEvent::Key { key, pressed } => {
                if pressed {
                    assert(is_key_press(events@[i as int]));
                    return Some(key);
                }
            },
            InputEvent::Other => {},
        }
        i = i + 1;
    }
    None
}

} // verus!
