//! The table of tracked keys: a fixed number of slots, each holding a key and
//! the state that key was last seen in.

use vstd::prelude::*;
use crate::key::Key;
use crate::state::ButtonState;

verus! {

/// One slot of the table: a key and its last known state.
#[derive(Debug, PartialEq, Eq, Structural, Clone, Copy)]
pub struct KeyStateEntry {
    pub key: Key,
    pub state: ButtonState,
}

impl KeyStateEntry {
    /// An entry for `key` in state `state`.
    pub fn new(key: Key, state: ButtonState) -> (r: KeyStateEntry)
        ensures
            r == (KeyStateEntry { key, state }),
    {
        KeyStateEntry { key, state }
    }

    /// Replaces the state and keeps the key.
    pub fn set_state(&mut self, state: ButtonState)
        ensures
            *final(self) == (KeyStateEntry { key: old(self).key, state }),
    {
        self.state = state;
    }

    /// Replaces the key and keeps the state.
    pub fn set_key(&mut self, key: Key)
        ensures
            *final(self) == (KeyStateEntry { key, state: old(self).state }),
    {
        self.key = key;
    }

    /// The key this slot tracks.
    pub fn get_key(&self) -> (r: Key)
        ensures
            r == self.key,
    {
        self.key
    }

    /// The state this slot holds.
    pub fn get_state(&self) -> (r: ButtonState)
        ensures
            r == self.state,
    {
        self.state
    }

    /// Says whether the tracked key is held down.
    pub fn is_pressed(&self) -> (r: bool)
        ensures
            r == (self.state == ButtonState::Pressed),
    {
        self.state.is_pressed()
    }

    /// Says whether the tracked key is up.
    pub fn is_released(&self) -> (r: bool)
        ensures
            r == (self.state == ButtonState::Released),
    {
        self.state.is_released()
    }
}

impl Default for KeyStateEntry {
    /// A slot that nobody configured tracks backspace, released.
    fn default() -> (r: KeyStateEntry)
        ensures
            r == (KeyStateEntry { key: Key::Backspace, state: ButtonState::Released }),
    {
        KeyStateEntry { key: Key::Backspace, state: ButtonState::Released }
    }
}

/// The index of the first slot of `s` equal to `entry`, if there is one.
pub open spec fn first_index_of(s: Seq<KeyStateEntry>, entry: KeyStateEntry) -> Option<int>
    decreases s.len(),
{
    if s.len() == 0 {
        None
    } else if s[0] == entry {
        Some(0int)
    } else {
        match first_index_of(s.subrange(1, s.len() as int), entry) {
            Some(i) => Some(i + 1),
            None => None,
        }
    }
}

/// What `first_index_of` finds is a slot equal to `entry` with no equal slot
/// before it; it finds nothing exactly when no slot is equal to `entry`.
pub proof fn lemma_first_index_of(s: Seq<KeyStateEntry>, entry: KeyStateEntry)
    ensures
        match first_index_of(s, entry) {
            Some(i) => 0 <= i < s.len() && s[i] == entry && forall|j: int|
                0 <= j < i ==> s[j] != entry,
            None => forall|j: int| 0 <= j < s.len() ==> s[j] != entry,
        },
    decreases s.len(),
{
    if s.len() == 0 {
    } else if s[0] == entry {
    } else {
        let t = s.subrange(1, s.len() as int);
        lemma_first_index_of(t, entry);
        match first_index_of(t, entry) {
            Some(i) => {
                assert(s[i + 1] == t[i]);
                assert forall|j: int| 0 <= j < i + 1 implies s[j] != entry by {
                    if j > 0 {
                        assert(s[j] == t[j - 1]);
                    }
                }
            },
            None => {
                assert forall|j: int| 0 <= j < s.len() implies s[j] != entry by {
                    if j > 0 {
                        assert(s[j] == t[j - 1]);
                    }
                }
            },
        }
    }
}

/// A slot `i` equal to `entry` with no equal slot before it is what
/// `first_index_of` finds.
pub proof fn lemma_first_index_of_is(s: Seq<KeyStateEntry>, entry: KeyStateEntry, i: int)
    requires
        0 <= i < s.len(),
        s[i] == entry,
        forall|j: int| 0 <= j < i ==> s[j] != entry,
    ensures
        first_index_of(s, entry) == Some(i),
{
    lemma_first_index_of(s, entry);
}

/// No slot equal to `entry` means that `first_index_of` finds nothing.
pub proof fn lemma_first_index_of_none(s: Seq<KeyStateEntry>, entry: KeyStateEntry)
    requires
        forall|j: int| 0 <= j < s.len() ==> s[j] != entry,
    ensures
        first_index_of(s, entry) is None,
{
    lemma_first_index_of(s, entry);
}

/// The table of tracked keys. Its length is fixed when it is made.
pub struct KeyStateTable<const N: usize> {
    pub entries: [KeyStateEntry; N],
}

impl<const N: usize> View for KeyStateTable<N> {
    type V = Seq<KeyStateEntry>;

    open spec fn view(&self) -> Seq<KeyStateEntry> {
        self.entries@
    }
}

impl<const N: usize> KeyStateTable<N> {
    /// A table whose slots all hold the default entry.
    pub fn new() -> (r: KeyStateTable<N>)
        ensures
            r@.len() == N,
            forall|i: int|
                0 <= i < N ==> r@[i] == (KeyStateEntry {
                    key: Key::Backspace,
                    state: ButtonState::Released,
                }),
    {
        let e = KeyStateEntry { key: Key::Backspace, state: ButtonState::Released };
        KeyStateTable { entries: [e; N] }
    }

    /// The number of slots.
    pub fn len(&self) -> (r: usize)
        ensures
            r == N,
            r == self@.len(),
    {
        N
    }

    /// Says whether some slot is equal to `entry`, key and state both.
    pub fn contains_entry(&self, entry: &KeyStateEntry) -> (r: bool)
        ensures
            r == self@.contains(*entry),
            r == first_index_of(self@, *entry).is_some(),
    {
        self.find_entry(entry).is_some()
    }

    /// The index of the first slot equal to `entry`.
    pub fn find_entry(&self, entry: &KeyStateEntry) -> (r: Option<usize>)
        ensures
            match r {
                Some(i) => first_index_of(self@, *entry) == Some(i as int) && i < N,
                None => first_index_of(self@, *entry) is None,
            },
            r is Some == self@.contains(*entry),
    {
        let mut i: usize = 0;
        while i < N
            invariant
                0 <= i <= N,
                self@.len() == N,
                forall|j: int| 0 <= j < i ==> self@[j] != *entry,
            decreases N - i,
        {
            if self.entries[i] == *entry {
                proof {
                    lemma_first_index_of_is(self@, *entry, i as int);
                }
                return Some(i);
            }
            i += 1;
        }
        proof {
            lemma_first_index_of_none(self@, *entry);
        }
        None
    }
}

impl<const N: usize> KeyStateTable<N> {
    /// A mutable borrow of the first slot equal to `entry`.
    pub fn find_entry_mut(&mut self, entry: &KeyStateEntry) -> (r: Option<&mut KeyStateEntry>)
        ensures
            match r {
                Some(e) => {
                    &&& first_index_of(old(self)@, *entry) is Some
                    &&& *e == *entry
                    &&& final(self)@ == old(self)@.update(
                        first_index_of(old(self)@, *entry).unwrap(),
                        *final(e),
                    )
                },
                None => first_index_of(old(self)@, *entry) is None && final(self)@ == old(self)@,
            },
    {
        proof {
            lemma_first_index_of(self@, *entry);
        }
        match self.find_entry(entry) {
            Some(i) => Some(&mut self.entries[i]),
            None => None,
        }
    }
}

/// The slot that an event for `key` with state `new_state` changes: the first
/// slot that tracks `key` and holds the other state. `None` when the key is
/// not tracked or the event repeats the state the table already holds.
pub open spec fn transition_index(s: Seq<KeyStateEntry>, key: Key, new_state: ButtonState)
    -> Option<int> {
    first_index_of(s, KeyStateEntry { key, state: new_state.inverted() })
}

/// The table after an event for `key` with state `new_state`: the slot that
/// `transition_index` names holds the new state, every other slot is as it
/// was.
pub open spec fn after_event(s: Seq<KeyStateEntry>, key: Key, new_state: ButtonState) -> Seq<
    KeyStateEntry,
> {
    match transition_index(s, key, new_state) {
        Some(i) => s.update(i, KeyStateEntry { key, state: new_state }),
        None => s,
    }
}

/// The slot that a raw event changes: none where the raw code names no key,
/// else as `transition_index` says for the key it names.
pub open spec fn raw_transition_index(s: Seq<KeyStateEntry>, raw_code: u32, new_state: ButtonState)
    -> Option<int> {
    match Key::of_raw(raw_code) {
        Some(key) => transition_index(s, key, new_state),
        None => None,
    }
}

/// Says whether some slot of `s` tracks `key`.
pub open spec fn tracks(s: Seq<KeyStateEntry>, key: Key) -> bool {
    exists|i: int| 0 <= i < s.len() && (#[trigger] s[i]).key == key
}

/// Says whether no two slots of `s` track the same key.
pub open spec fn distinct_keys(s: Seq<KeyStateEntry>) -> bool {
    forall|i: int, j: int|
        0 <= i < s.len() && 0 <= j < s.len() && i != j ==> (#[trigger] s[i]).key != (
        #[trigger] s[j]).key
}

impl<const N: usize> KeyStateTable<N> {
    /// Makes slot `index` track `key`; the slot keeps its state.
    pub fn set_key(&mut self, index: usize, key: Key)
        requires
            index < N,
        ensures
            final(self)@ == old(self)@.update(
                index as int,
                KeyStateEntry { key, state: old(self)@[index as int].state },
            ),
    {
        let state = self.entries[index].state;
        self.entries[index] = KeyStateEntry { key, state };
    }

    /// A copy of slot `index`.
    pub fn get(&self, index: usize) -> (r: KeyStateEntry)
        requires
            index < N,
        ensures
            r == self@[index as int],
    {
        self.entries[index]
    }

    /// Says whether slot `index` holds a pressed key.
    pub fn is_pressed(&self, index: usize) -> (r: bool)
        requires
            index < N,
        ensures
            r == (self@[index as int].state == ButtonState::Pressed),
    {
        self.entries[index].is_pressed()
    }

    /// The slots, for a handler to read.
    pub fn snapshot(&self) -> (r: &[KeyStateEntry; N])
        ensures
            r@ == self@,
    {
        &self.entries
    }

    /// The slot that a raw event changes, borrowed mutably: the first slot
    /// whose key has the raw code `raw_code` and whose state differs from
    /// `new_state`. An unknown code, an untracked key and a repeated state
    /// all give `None` and leave the table as it was.
    pub fn find_matching_transition(&mut self, raw_code: u32, new_state: ButtonState) -> (r: Option<
        &mut KeyStateEntry,
    >)
        ensures
            match r {
                Some(e) => {
                    &&& raw_transition_index(old(self)@, raw_code, new_state) is Some
                    &&& e.key.raw_code() == raw_code
                    &&& e.state == new_state.inverted()
                    &&& final(self)@ == old(self)@.update(
                        raw_transition_index(old(self)@, raw_code, new_state).unwrap(),
                        *final(e),
                    )
                },
                None => {
                    &&& raw_transition_index(old(self)@, raw_code, new_state) is None
                    &&& final(self)@ == old(self)@
                },
            },
    {
        match Key::from_raw(raw_code) {
            Some(key) => {
                let wanted = KeyStateEntry { key, state: new_state.invert() };
                self.find_entry_mut(&wanted)
            },
            None => None,
        }
    }

    /// Takes an event for `key` into the table. Where it is a transition, the
    /// slot takes the new state and the result is what the handler is to be
    /// told; otherwise nothing changes and the result is `None`.
    pub fn record_event(&mut self, key: Key, new_state: ButtonState) -> (r: Option<
        (Key, ButtonState),
    >)
        ensures
            final(self)@ == after_event(old(self)@, key, new_state),
            r is Some == transition_index(old(self)@, key, new_state).is_some(),
            r is Some ==> r == Some((key, new_state)),
    {
        let wanted = KeyStateEntry { key, state: new_state.invert() };
        match self.find_entry_mut(&wanted) {
            Some(entry) => {
                entry.state = new_state;
                Some((entry.key, entry.state))
            },
            None => None,
        }
    }
}

/// An event for a key that no slot tracks is no transition and leaves the
/// table as it was, whatever the state it reports.
pub proof fn lemma_untracked_key_is_no_transition(
    s: Seq<KeyStateEntry>,
    key: Key,
    new_state: ButtonState,
)
    requires
        !tracks(s, key),
    ensures
        transition_index(s, key, new_state) is None,
        after_event(s, key, new_state) == s,
{
    lemma_first_index_of(s, KeyStateEntry { key, state: new_state.inverted() });
}

/// A raw code that is the code of no tracked key is no transition: either it
/// names no key at all, or it names one that no slot tracks.
pub proof fn lemma_untracked_code_is_no_transition(
    s: Seq<KeyStateEntry>,
    raw_code: u32,
    new_state: ButtonState,
)
    requires
        forall|i: int| 0 <= i < s.len() ==> (#[trigger] s[i]).key.raw_code() != raw_code,
    ensures
        raw_transition_index(s, raw_code, new_state) is None,
{
    match Key::of_raw(raw_code) {
        Some(key) => {
            crate::key::lemma_of_raw_is_inverse(raw_code);
            lemma_untracked_key_is_no_transition(s, key, new_state);
        },
        None => {},
    }
}

/// An event changes no key and no length: each slot tracks after it the key
/// it tracked before.
pub proof fn lemma_event_keeps_keys(s: Seq<KeyStateEntry>, key: Key, new_state: ButtonState)
    ensures
        after_event(s, key, new_state).len() == s.len(),
        forall|i: int|
            0 <= i < s.len() ==> (#[trigger] after_event(s, key, new_state)[i]).key == s[i].key,
        distinct_keys(s) ==> distinct_keys(after_event(s, key, new_state)),
        forall|k: Key| tracks(s, k) == tracks(after_event(s, key, new_state), k),
{
    let entry = KeyStateEntry { key, state: new_state.inverted() };
    let t = after_event(s, key, new_state);
    lemma_first_index_of(s, entry);
    assert forall|i: int| 0 <= i < s.len() implies (#[trigger] t[i]).key == s[i].key by {}
    if distinct_keys(s) {
        assert forall|i: int, j: int|
            0 <= i < t.len() && 0 <= j < t.len() && i != j implies (#[trigger] t[i]).key != (
        #[trigger] t[j]).key by {
            assert(t[i].key == s[i].key);
            assert(t[j].key == s[j].key);
        }
    }
    assert forall|k: Key| tracks(s, k) == tracks(t, k) by {
        if tracks(s, k) {
            let i = choose|i: int| 0 <= i < s.len() && (#[trigger] s[i]).key == k;
            assert(t[i].key == k);
        }
        if tracks(t, k) {
            let i = choose|i: int| 0 <= i < t.len() && (#[trigger] t[i]).key == k;
            assert(s[i].key == t[i].key);
        }
    }
}

/// A transition changes one slot only, and that slot tracked the key in the
/// other state.
pub proof fn lemma_transition_changes_one_slot(
    s: Seq<KeyStateEntry>,
    key: Key,
    new_state: ButtonState,
)
    requires
        transition_index(s, key, new_state) is Some,
    ensures
        ({
            let i = transition_index(s, key, new_state).unwrap();
            let t = after_event(s, key, new_state);
            &&& 0 <= i < s.len()
            &&& s[i] == (KeyStateEntry { key, state: new_state.inverted() })
            &&& t[i] == (KeyStateEntry { key, state: new_state })
            &&& forall|j: int| 0 <= j < s.len() && j != i ==> t[j] == s[j]
            &&& forall|j: int| 0 <= j < i ==> s[j] != (KeyStateEntry { key, state: new_state.inverted() })
        }),
{
    lemma_first_index_of(s, KeyStateEntry { key, state: new_state.inverted() });
}

/// In a table where no key is tracked twice, the same event a second time is
/// no transition: of two presses with no release between them only the first
/// is reported, and likewise of two releases.
pub proof fn lemma_repeated_event_is_no_transition(
    s: Seq<KeyStateEntry>,
    key: Key,
    new_state: ButtonState,
)
    requires
        distinct_keys(s),
    ensures
        transition_index(after_event(s, key, new_state), key, new_state) is None,
        after_event(after_event(s, key, new_state), key, new_state) == after_event(
            s,
            key,
            new_state,
        ),
{
    let entry = KeyStateEntry { key, state: new_state.inverted() };
    let t = after_event(s, key, new_state);
    lemma_first_index_of(s, entry);
    assert forall|j: int| 0 <= j < t.len() implies t[j] != entry by {
        match transition_index(s, key, new_state) {
            Some(i) => {
                if j != i {
                    assert(s[i].key == key);
                    assert(t[j] == s[j]);
                    assert(s[j].key != s[i].key);
                }
            },
            None => {},
        }
    }
    lemma_first_index_of_none(t, entry);
}

/// In a table where no key is tracked twice, an event for a tracked key
/// leaves the slot of that key in the reported state, whether it was a
/// transition or not.
pub proof fn lemma_event_sets_state(s: Seq<KeyStateEntry>, key: Key, new_state: ButtonState, i: int)
    requires
        distinct_keys(s),
        0 <= i < s.len(),
        s[i].key == key,
    ensures
        after_event(s, key, new_state)[i] == (KeyStateEntry { key, state: new_state }),
        transition_index(s, key, new_state) is Some == (s[i].state != new_state),
{
    let entry = KeyStateEntry { key, state: new_state.inverted() };
    lemma_first_index_of(s, entry);
    match transition_index(s, key, new_state) {
        Some(k) => {
            if k != i {
                assert(s[k].key != s[i].key);
            }
        },
        None => {
            assert(s[i] != entry);
        },
    }
}

} // verus!
