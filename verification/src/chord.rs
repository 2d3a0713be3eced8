//! The chords the application listens for: one shift key held together with
//! one other tracked key. The table has eighteen slots; the first two track
//! the shift keys.

use vstd::prelude::*;
use crate::key::Key;
use crate::state::ButtonState;
use crate::table::KeyStateEntry;

verus! {

/// The number of slots in the application's table.
pub const CHORD_SLOTS: usize = 18;

/// What a chord asks the application to do.
#[derive(Debug, PartialEq, Eq, Structural, Clone, Copy)]
pub enum AppKeyboardEvents {
    ShiftF8,
    KeypadA,
    KeypadD,
    KeyP,
    Num1,
    Num2,
    Num3,
    Num4,
    Num5,
    Num6,
    Num7,
    Num8,
    Num9,
    KeypadPlus,
    KeypadMinus,
    Escape,
}

/// The key that slot `i` of the application's table tracks.
pub open spec fn slot_key(i: int) -> Key {
    if i == 0 {
        Key::ShiftRight
    } else if i == 1 {
        Key::ShiftLeft
    } else if i == 2 {
        Key::F8
    } else if i == 3 {
        Key::KpPlus
    } else if i == 4 {
        Key::KpMinus
    } else if i == 5 {
        Key::Escape
    } else if i == 6 {
        Key::KeyA
    } else if i == 7 {
        Key::KeyD
    } else if i == 8 {
        Key::Num1
    } else if i == 9 {
        Key::Num2
    } else if i == 10 {
        Key::Num3
    } else if i == 11 {
        Key::Num4
    } else if i == 12 {
        Key::Num5
    } else if i == 13 {
        Key::Num6
    } else if i == 14 {
        Key::Num7
    } else if i == 15 {
        Key::Num8
    } else if i == 16 {
        Key::Num9
    } else {
        Key::KeyP
    }
}

/// The slots, beside one shift key, that must be the pressed ones for the
/// chord of `event`: the first and the last of them. Every chord but one is
/// a single key. The chord of `Num6` is the keys 6 and 7 held together;
/// held alone, 6 gives no event.
pub open spec fn chord_slots(event: AppKeyboardEvents) -> (int, int) {
    match event {
        AppKeyboardEvents::ShiftF8 => (2, 2),
        AppKeyboardEvents::KeypadPlus => (3, 3),
        AppKeyboardEvents::KeypadMinus => (4, 4),
        AppKeyboardEvents::Escape => (5, 5),
        AppKeyboardEvents::KeypadA => (6, 6),
        AppKeyboardEvents::KeypadD => (7, 7),
        AppKeyboardEvents::Num1 => (8, 8),
        AppKeyboardEvents::Num2 => (9, 9),
        AppKeyboardEvents::Num3 => (10, 10),
        AppKeyboardEvents::Num4 => (11, 11),
        AppKeyboardEvents::Num5 => (12, 12),
        AppKeyboardEvents::Num6 => (13, 14),
        AppKeyboardEvents::Num7 => (14, 14),
        AppKeyboardEvents::Num8 => (15, 15),
        AppKeyboardEvents::Num9 => (16, 16),
        AppKeyboardEvents::KeyP => (17, 17),
    }
}

/// Slot `i` of `s` holds a pressed key.
pub open spec fn pressed_at(s: Seq<KeyStateEntry>, i: int) -> bool {
    s[i].state == ButtonState::Pressed
}

/// Of the slots from 2 on, exactly those from `first` to `last` are
/// pressed.
pub open spec fn held_exactly(s: Seq<KeyStateEntry>, first: int, last: int) -> bool {
    forall|j: int| 2 <= j < CHORD_SLOTS ==> (#[trigger] pressed_at(s, j) <==> first <= j <= last)
}

/// The table shows the chord of `event`: one shift key is pressed, the
/// other is not, and beside it exactly the keys of the chord.
pub open spec fn chord_matches(s: Seq<KeyStateEntry>, event: AppKeyboardEvents) -> bool {
    &&& pressed_at(s, 0) != pressed_at(s, 1)
    &&& held_exactly(s, chord_slots(event).0, chord_slots(event).1)
}

/// The `k`-th chord, in the order in which they are tried.
pub open spec fn chord_at(k: int) -> AppKeyboardEvents {
    if k == 0 {
        AppKeyboardEvents::ShiftF8
    } else if k == 1 {
        AppKeyboardEvents::KeypadPlus
    } else if k == 2 {
        AppKeyboardEvents::KeypadMinus
    } else if k == 3 {
        AppKeyboardEvents::Escape
    } else if k == 4 {
        AppKeyboardEvents::KeypadA
    } else if k == 5 {
        AppKeyboardEvents::KeypadD
    } else if k == 6 {
        AppKeyboardEvents::Num1
    } else if k == 7 {
        AppKeyboardEvents::Num2
    } else if k == 8 {
        AppKeyboardEvents::Num3
    } else if k == 9 {
        AppKeyboardEvents::Num4
    } else if k == 10 {
        AppKeyboardEvents::Num5
    } else if k == 11 {
        AppKeyboardEvents::Num6
    } else if k == 12 {
        AppKeyboardEvents::Num7
    } else if k == 13 {
        AppKeyboardEvents::Num8
    } else if k == 14 {
        AppKeyboardEvents::Num9
    } else {
        AppKeyboardEvents::KeyP
    }
}

/// The position of a chord in the order in which they are tried.
pub open spec fn chord_position(event: AppKeyboardEvents) -> int {
    match event {
        AppKeyboardEvents::ShiftF8 => 0,
        AppKeyboardEvents::KeypadPlus => 1,
        AppKeyboardEvents::KeypadMinus => 2,
        AppKeyboardEvents::Escape => 3,
        AppKeyboardEvents::KeypadA => 4,
        AppKeyboardEvents::KeypadD => 5,
        AppKeyboardEvents::Num1 => 6,
        AppKeyboardEvents::Num2 => 7,
        AppKeyboardEvents::Num3 => 8,
        AppKeyboardEvents::Num4 => 9,
        AppKeyboardEvents::Num5 => 10,
        AppKeyboardEvents::Num6 => 11,
        AppKeyboardEvents::Num7 => 12,
        AppKeyboardEvents::Num8 => 13,
        AppKeyboardEvents::Num9 => 14,
        AppKeyboardEvents::KeyP => 15,
    }
}

/// The key that slot `i` of the application's table tracks.
pub fn key_of_slot(i: usize) -> (r: Key)
    requires
        i < CHORD_SLOTS,
    ensures
        r == slot_key(i as int),
{
    if i == 0 {
        Key::ShiftRight
    } else if i == 1 {
        Key::ShiftLeft
    } else if i == 2 {
        Key::F8
    } else if i == 3 {
        Key::KpPlus
    } else if i == 4 {
        Key::KpMinus
    } else if i == 5 {
        Key::Escape
    } else if i == 6 {
        Key::KeyA
    } else if i == 7 {
        Key::KeyD
    } else if i == 8 {
        Key::Num1
    } else if i == 9 {
        Key::Num2
    } else if i == 10 {
        Key::Num3
    } else if i == 11 {
        Key::Num4
    } else if i == 12 {
        Key::Num5
    } else if i == 13 {
        Key::Num6
    } else if i == 14 {
        Key::Num7
    } else if i == 15 {
        Key::Num8
    } else if i == 16 {
        Key::Num9
    } else {
        Key::KeyP
    }
}

/// Makes every slot of the application's table track its key; the states
/// stay as they are.
pub fn map_chord_keys(table: &mut [KeyStateEntry; 18])
    ensures
        forall|i: int|
            0 <= i < CHORD_SLOTS ==> #[trigger] final(table)@[i] == (KeyStateEntry {
                key: slot_key(i),
                state: old(table)@[i].state,
            }),
{
    let mut i: usize = 0;
    while i < CHORD_SLOTS
        invariant
            0 <= i <= CHORD_SLOTS,
            forall|j: int|
                0 <= j < i ==> #[trigger] table@[j] == (KeyStateEntry {
                    key: slot_key(j),
                    state: old(table)@[j].state,
                }),
            forall|j: int| i <= j < CHORD_SLOTS ==> #[trigger] table@[j] == old(table)@[j],
        decreases CHORD_SLOTS - i,
    {
        let state = table[i].state;
        table[i] = KeyStateEntry { key: key_of_slot(i), state };
        i += 1;
    }
}

/// The chord at position `k`, with the first and the last slot of its keys.
fn chord_in_order(k: usize) -> (r: (AppKeyboardEvents, usize, usize))
    requires
        k < 16,
    ensures
        r.0 == chord_at(k as int),
        chord_slots(r.0) == (r.1 as int, r.2 as int),
        2 <= r.1 <= r.2 < CHORD_SLOTS,
{
    if k == 0 {
        (AppKeyboardEvents::ShiftF8, 2, 2)
    } else if k == 1 {
        (AppKeyboardEvents::KeypadPlus, 3, 3)
    } else if k == 2 {
        (AppKeyboardEvents::KeypadMinus, 4, 4)
    } else if k == 3 {
        (AppKeyboardEvents::Escape, 5, 5)
    } else if k == 4 {
        (AppKeyboardEvents::KeypadA, 6, 6)
    } else if k == 5 {
        (AppKeyboardEvents::KeypadD, 7, 7)
    } else if k == 6 {
        (AppKeyboardEvents::Num1, 8, 8)
    } else if k == 7 {
        (AppKeyboardEvents::Num2, 9, 9)
    } else if k == 8 {
        (AppKeyboardEvents::Num3, 10, 10)
    } else if k == 9 {
        (AppKeyboardEvents::Num4, 11, 11)
    } else if k == 10 {
        (AppKeyboardEvents::Num5, 12, 12)
    } else if k == 11 {
        (AppKeyboardEvents::Num6, 13, 14)
    } else if k == 12 {
        (AppKeyboardEvents::Num7, 14, 14)
    } else if k == 13 {
        (AppKeyboardEvents::Num8, 15, 15)
    } else if k == 14 {
        (AppKeyboardEvents::Num9, 16, 16)
    } else {
        (AppKeyboardEvents::KeyP, 17, 17)
    }
}

/// Says whether, of the slots from 2 on, exactly those from `first` to
/// `last` are pressed.
fn is_held_exactly(snapshot: &[KeyStateEntry; 18], first: usize, last: usize) -> (r: bool)
    ensures
        r == held_exactly(snapshot@, first as int, last as int),
{
    let mut j: usize = 2;
    while j < CHORD_SLOTS
        invariant
            2 <= j <= CHORD_SLOTS,
            forall|m: int|
                2 <= m < j ==> (#[trigger] pressed_at(snapshot@, m) <==> first <= m <= last),
        decreases CHORD_SLOTS - j,
    {
        let pressed = snapshot[j].is_pressed();
        if pressed != (first <= j && j <= last) {
            assert(pressed_at(snapshot@, j as int) != (first <= j <= last));
            return false;
        }
        j += 1;
    }
    true
}

/// The chord that the table shows, if it shows one: `Some(event)` exactly
/// when the table matches the chord of `event`, `None` when it matches no
/// chord (no shift key or both, no other key, or keys that form no chord).
pub fn decode_chord(snapshot: &[KeyStateEntry; 18]) -> (r: Option<AppKeyboardEvents>)
    ensures
        match r {
            Some(event) => chord_matches(snapshot@, event),
            None => forall|event: AppKeyboardEvents| !chord_matches(snapshot@, event),
        },
{
    if snapshot[0].is_pressed() == snapshot[1].is_pressed() {
        return None;
    }
    let mut k: usize = 0;
    while k < 16
        invariant
            0 <= k <= 16,
            pressed_at(snapshot@, 0) != pressed_at(snapshot@, 1),
            forall|m: int| 0 <= m < k ==> !chord_matches(snapshot@, #[trigger] chord_at(m)),
        decreases 16 - k,
    {
        let (event, first, last) = chord_in_order(k);
        if is_held_exactly(snapshot, first, last) {
            return Some(event);
        }
        k += 1;
    }
    proof {
        assert forall|event: AppKeyboardEvents| !chord_matches(snapshot@, event) by {
            lemma_chord_position(event);
        }
    }
    None
}

/// Every chord has its place in the order in which they are tried.
pub proof fn lemma_chord_position(event: AppKeyboardEvents)
    ensures
        0 <= chord_position(event) < 16,
        chord_at(chord_position(event)) == event,
{
}

/// A table shows at most one chord.
pub proof fn lemma_chord_is_unique(s: Seq<KeyStateEntry>, a: AppKeyboardEvents, b: AppKeyboardEvents)
    requires
        chord_matches(s, a),
        chord_matches(s, b),
    ensures
        a == b,
{
    let (fa, la) = chord_slots(a);
    let (fb, lb) = chord_slots(b);
    assert(pressed_at(s, fa));
    assert(pressed_at(s, la));
    assert(pressed_at(s, fb));
    assert(pressed_at(s, lb));
}

/// With both shift keys held, or none, the table shows no chord.
pub proof fn lemma_no_chord_without_one_shift(s: Seq<KeyStateEntry>, event: AppKeyboardEvents)
    requires
        pressed_at(s, 0) == pressed_at(s, 1),
    ensures
        !chord_matches(s, event),
{
}

} // verus!
