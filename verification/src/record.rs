//! Decoding of what the recording extension hands to the callback: one
//! intercepted protocol record, of which only forwarded key presses and key
//! releases are of interest.

use vstd::prelude::*;
use crate::key::Key;
use crate::state::ButtonState;

verus! {

/// The category of a record that the server forwarded from a device.
pub const RECORD_FROM_SERVER: i32 = 0;

/// The event type of a key press.
pub const KEY_PRESS: u8 = 2;

/// The event type of a key release.
pub const KEY_RELEASE: u8 = 3;

/// The size in bytes of the fixed event header: type, code, time stamp,
/// pointer position and modifier state.
pub const EVENT_HEADER_BYTES: u64 = 32;

/// The range of device events that a recording context asks for.
#[derive(Debug, PartialEq, Eq, Structural, Clone, Copy)]
pub struct XRecordRange {
    pub device_events_first: u8,
    pub device_events_last: u8,
}

impl XRecordRange {
    /// The range that holds key presses and key releases and nothing else.
    pub fn key_events() -> (r: XRecordRange)
        ensures
            r == (XRecordRange { device_events_first: KEY_PRESS, device_events_last: KEY_RELEASE }),
            forall|t: u8| r.covers(t) <==> t == KEY_PRESS || t == KEY_RELEASE,
    {
        XRecordRange { device_events_first: KEY_PRESS, device_events_last: KEY_RELEASE }
    }

    /// Says whether the range holds the event type `t`.
    pub open spec fn covers(self, t: u8) -> bool {
        self.device_events_first <= t <= self.device_events_last
    }

    /// Says whether the range holds the event type `event_type`.
    pub fn contains(&self, event_type: u8) -> (r: bool)
        ensures
            r == self.covers(event_type),
    {
        self.device_events_first <= event_type && event_type <= self.device_events_last
    }
}

/// One intercepted record, as the callback receives it: its category, the
/// length of its payload in units of four bytes, and the payload itself
/// (`None` where the platform handed over no payload at all).
#[derive(Debug)]
pub struct XRecordInterceptData {
    pub category: i32,
    pub data_len: u64,
    pub data: Option<Vec<u8>>,
}

/// The state that an event of type `event_type` reports.
pub open spec fn state_of_event_type(event_type: u8) -> Option<ButtonState> {
    if event_type == KEY_PRESS {
        Some(ButtonState::Pressed)
    } else if event_type == KEY_RELEASE {
        Some(ButtonState::Released)
    } else {
        None
    }
}

/// What a payload says once the record's category and length were accepted:
/// its first byte is the event type, its second the raw key code.
pub open spec fn decoded_header(bytes: Seq<u8>) -> Option<(Key, ButtonState)> {
    if bytes.len() < 2 {
        None
    } else {
        match (state_of_event_type(bytes[0]), Key::of_raw(bytes[1] as u32)) {
            (Some(state), Some(key)) => Some((key, state)),
            _ => None,
        }
    }
}

/// The key event that a record carries, if it carries one: the record was
/// forwarded by the server, its payload is long enough for the event header,
/// the event is a key press or release, and the code names a known key.
pub open spec fn decoded_record(category: i32, data_len: u64, data: Option<Seq<u8>>) -> Option<
    (Key, ButtonState),
> {
    if category != RECORD_FROM_SERVER || data_len * 4 < EVENT_HEADER_BYTES {
        None
    } else {
        match data {
            Some(bytes) => decoded_header(bytes),
            None => None,
        }
    }
}

impl XRecordInterceptData {
    /// The payload as a sequence of bytes.
    pub open spec fn payload(&self) -> Option<Seq<u8>> {
        match self.data {
            Some(v) => Some(v@),
            None => None,
        }
    }

    /// A record of the given category, length and payload.
    pub fn new(category: i32, data_len: u64, data: Option<Vec<u8>>) -> (r: XRecordInterceptData)
        ensures
            r.category == category,
            r.data_len == data_len,
            r.data == data,
    {
        XRecordInterceptData { category, data_len, data }
    }

    /// The key event that the record carries. Records of other traffic and
    /// malformed ones give `None`: they are dropped, not reported.
    pub fn decode(&self) -> (r: Option<(Key, ButtonState)>)
        ensures
            r == decoded_record(self.category, self.data_len, self.payload()),
    {
        if self.category != RECORD_FROM_SERVER || self.data_len < EVENT_HEADER_BYTES / 4 {
            return None;
        }
        match &self.data {
            Some(bytes) => decode_header(bytes.as_slice()),
            None => None,
        }
    }
}

/// The state that an event of type `event_type` reports: pressed for a key
/// press, released for a key release, nothing for any other event.
pub fn button_state_of(event_type: u8) -> (r: Option<ButtonState>)
    ensures
        r == state_of_event_type(event_type),
{
    if event_type == KEY_PRESS {
        Some(ButtonState::Pressed)
    } else if event_type == KEY_RELEASE {
        Some(ButtonState::Released)
    } else {
        None
    }
}

/// Reads the event type and the key code from the start of a payload.
pub fn decode_header(bytes: &[u8]) -> (r: Option<(Key, ButtonState)>)
    ensures
        r == decoded_header(bytes@),
{
    if bytes.len() < 2 {
        return None;
    }
    let state = match button_state_of(bytes[0]) {
        Some(state) => state,
        None => {
            return None;
        },
    };
    match Key::from_raw(bytes[1] as u32) {
        Some(key) => Some((key, state)),
        None => None,
    }
}

/// A record that decodes to a key event was forwarded by the server, is long
/// enough, and its first two bytes are the event's type and the key's code.
pub proof fn lemma_decoded_record(category: i32, data_len: u64, data: Option<Seq<u8>>)
    ensures
        match decoded_record(category, data_len, data) {
            Some((key, state)) => {
                &&& category == RECORD_FROM_SERVER
                &&& data_len >= 8
                &&& data is Some
                &&& data.unwrap().len() >= 2
                &&& data.unwrap()[1] == key.raw_code()
                &&& data.unwrap()[0] == (if state == ButtonState::Pressed {
                    KEY_PRESS
                } else {
                    KEY_RELEASE
                })
            },
            None => true,
        },
{
    if data is Some && data.unwrap().len() >= 2 {
        crate::key::lemma_of_raw_is_inverse(data.unwrap()[1] as u32);
    }
}

/// A well-formed record of a press or release of a known key decodes to that
/// key and state.
pub proof fn lemma_key_event_decodes(key: Key, state: ButtonState, data_len: u64, bytes: Seq<u8>)
    requires
        data_len >= 8,
        bytes.len() >= 2,
        bytes[0] == (if state == ButtonState::Pressed {
            KEY_PRESS
        } else {
            KEY_RELEASE
        }),
        bytes[1] == key.raw_code(),
    ensures
        decoded_record(RECORD_FROM_SERVER, data_len, Some(bytes)) == Some((key, state)),
{
    crate::key::lemma_raw_code_round_trip();
    assert(Key::of_raw(key.raw_code()) == Some(key));
}

} // verus!
