//! The identity table of the keys the hook knows: each symbolic key and the raw
//! code under which the platform reports it.

use vstd::prelude::*;

verus! {

/// A physical keyboard key, by name.
#[derive(Debug, PartialEq, Eq, Structural, Clone, Copy, Hash)]
pub enum Key {
    Alt,
    AltGr,
    Backspace,
    CapsLock,
    ControlLeft,
    ControlRight,
    Delete,
    DownArrow,
    End,
    Escape,
    F1,
    F10,
    F11,
    F12,
    F2,
    F3,
    F4,
    F5,
    F6,
    F7,
    F8,
    F9,
    Home,
    LeftArrow,
    MetaLeft,
    PageDown,
    PageUp,
    Return,
    RightArrow,
    ShiftLeft,
    ShiftRight,
    Space,
    Tab,
    UpArrow,
    PrintScreen,
    ScrollLock,
    Pause,
    NumLock,
    BackQuote,
    Num1,
    Num2,
    Num3,
    Num4,
    Num5,
    Num6,
    Num7,
    Num8,
    Num9,
    Num0,
    Minus,
    Equal,
    KeyQ,
    KeyW,
    KeyE,
    KeyR,
    KeyT,
    KeyY,
    KeyU,
    KeyI,
    KeyO,
    KeyP,
    LeftBracket,
    RightBracket,
    KeyA,
    KeyS,
    KeyD,
    KeyF,
    KeyG,
    KeyH,
    KeyJ,
    KeyK,
    KeyL,
    SemiColon,
    Quote,
    BackSlash,
    IntlBackslash,
    KeyZ,
    KeyX,
    KeyC,
    KeyV,
    KeyB,
    KeyN,
    KeyM,
    Comma,
    Dot,
    Slash,
    Insert,
    KpReturn,
    KpMinus,
    KpPlus,
    KpMultiply,
    KpDivide,
    Kp0,
    Kp1,
    Kp2,
    Kp3,
    Kp4,
    Kp5,
    Kp6,
    Kp7,
    Kp8,
    Kp9,
    KpDelete,
}

impl Key {
    /// The raw code under which the platform reports this key.
    pub open spec fn raw_code(self) -> u32 {
        match self {
            Key::Alt => 64,
            Key::AltGr => 108,
            Key::Backspace => 22,
            Key::CapsLock => 66,
            Key::ControlLeft => 37,
            Key::ControlRight => 105,
            Key::Delete => 119,
            Key::DownArrow => 116,
            Key::End => 115,
            Key::Escape => 9,
            Key::F1 => 67,
            Key::F10 => 76,
            Key::F11 => 95,
            Key::F12 => 96,
            Key::F2 => 68,
            Key::F3 => 69,
            Key::F4 => 70,
            Key::F5 => 71,
            Key::F6 => 72,
            Key::F7 => 73,
            Key::F8 => 74,
            Key::F9 => 75,
            Key::Home => 110,
            Key::LeftArrow => 113,
            Key::MetaLeft => 133,
            Key::PageDown => 117,
            Key::PageUp => 112,
            Key::Return => 36,
            Key::RightArrow => 114,
            Key::ShiftLeft => 50,
            Key::ShiftRight => 62,
            Key::Space => 65,
            Key::Tab => 23,
            Key::UpArrow => 111,
            Key::PrintScreen => 107,
            Key::ScrollLock => 78,
            Key::Pause => 127,
            Key::NumLock => 77,
            Key::BackQuote => 49,
            Key::Num1 => 10,
            Key::Num2 => 11,
            Key::Num3 => 12,
            Key::Num4 => 13,
            Key::Num5 => 14,
            Key::Num6 => 15,
            Key::Num7 => 16,
            Key::Num8 => 17,
            Key::Num9 => 18,
            Key::Num0 => 19,
            Key::Minus => 20,
            Key::Equal => 21,
            Key::KeyQ => 24,
            Key::KeyW => 25,
            Key::KeyE => 26,
            Key::KeyR => 27,
            Key::KeyT => 28,
            Key::KeyY => 29,
            Key::KeyU => 30,
            Key::KeyI => 31,
            Key::KeyO => 32,
            Key::KeyP => 33,
            Key::LeftBracket => 34,
            Key::RightBracket => 35,
            Key::KeyA => 38,
            Key::KeyS => 39,
            Key::KeyD => 40,
            Key::KeyF => 41,
            Key::KeyG => 42,
            Key::KeyH => 43,
            Key::KeyJ => 44,
            Key::KeyK => 45,
            Key::KeyL => 46,
            Key::SemiColon => 47,
            Key::Quote => 48,
            Key::BackSlash => 51,
            Key::IntlBackslash => 94,
            Key::KeyZ => 52,
            Key::KeyX => 53,
            Key::KeyC => 54,
            Key::KeyV => 55,
            Key::KeyB => 56,
            Key::KeyN => 57,
            Key::KeyM => 58,
            Key::Comma => 59,
            Key::Dot => 60,
            Key::Slash => 61,
            Key::Insert => 118,
            Key::KpReturn => 104,
            Key::KpMinus => 82,
            Key::KpPlus => 86,
            Key::KpMultiply => 63,
            Key::KpDivide => 106,
            Key::Kp0 => 90,
            Key::Kp1 => 87,
            Key::Kp2 => 88,
            Key::Kp3 => 89,
            Key::Kp4 => 83,
            Key::Kp5 => 84,
            Key::Kp6 => 85,
            Key::Kp7 => 79,
            Key::Kp8 => 80,
            Key::Kp9 => 81,
            Key::KpDelete => 91,
        }
    }

    /// The key that the platform reports under `code`, if the table has one.
    pub open spec fn of_raw(code: u32) -> Option<Key> {
        match code {
            9u32 => Some(Key::Escape),
            10u32 => Some(Key::Num1),
            11u32 => Some(Key::Num2),
            12u32 => Some(Key::Num3),
            13u32 => Some(Key::Num4),
            14u32 => Some(Key::Num5),
            15u32 => Some(Key::Num6),
            16u32 => Some(Key::Num7),
            17u32 => Some(Key::Num8),
            18u32 => Some(Key::Num9),
            19u32 => Some(Key::Num0),
            20u32 => Some(Key::Minus),
            21u32 => Some(Key::Equal),
            22u32 => Some(Key::Backspace),
            23u32 => Some(Key::Tab),
            24u32 => Some(Key::KeyQ),
            25u32 => Some(Key::KeyW),
            26u32 => Some(Key::KeyE),
            27u32 => Some(Key::KeyR),
            28u32 => Some(Key::KeyT),
            29u32 => Some(Key::KeyY),
            30u32 => Some(Key::KeyU),
            31u32 => Some(Key::KeyI),
            32u32 => Some(Key::KeyO),
            33u32 => Some(Key::KeyP),
            34u32 => Some(Key::LeftBracket),
            35u32 => Some(Key::RightBracket),
            36u32 => Some(Key::Return),
            37u32 => Some(Key::ControlLeft),
            38u32 => Some(Key::KeyA),
            39u32 => Some(Key::KeyS),
            40u32 => Some(Key::KeyD),
            41u32 => Some(Key::KeyF),
            42u32 => Some(Key::KeyG),
            43u32 => Some(Key::KeyH),
            44u32 => Some(Key::KeyJ),
            45u32 => Some(Key::KeyK),
            46u32 => Some(Key::KeyL),
            47u32 => Some(Key::SemiColon),
            48u32 => Some(Key::Quote),
            49u32 => Some(Key::BackQuote),
            50u32 => Some(Key::ShiftLeft),
            51u32 => Some(Key::BackSlash),
            52u32 => Some(Key::KeyZ),
            53u32 => Some(Key::KeyX),
            54u32 => Some(Key::KeyC),
            55u32 => Some(Key::KeyV),
            56u32 => Some(Key::KeyB),
            57u32 => Some(Key::KeyN),
            58u32 => Some(Key::KeyM),
            59u32 => Some(Key::Comma),
            60u32 => Some(Key::Dot),
            61u32 => Some(Key::Slash),
            62u32 => Some(Key::ShiftRight),
            63u32 => Some(Key::KpMultiply),
            64u32 => Some(Key::Alt),
            65u32 => Some(Key::Space),
            66u32 => Some(Key::CapsLock),
            67u32 => Some(Key::F1),
            68u32 => Some(Key::F2),
            69u32 => Some(Key::F3),
            70u32 => Some(Key::F4),
            71u32 => Some(Key::F5),
            72u32 => Some(Key::F6),
            73u32 => Some(Key::F7),
            74u32 => Some(Key::F8),
            75u32 => Some(Key::F9),
            76u32 => Some(Key::F10),
            77u32 => Some(Key::NumLock),
            78u32 => Some(Key::ScrollLock),
            79u32 => Some(Key::Kp7),
            80u32 => Some(Key::Kp8),
            81u32 => Some(Key::Kp9),
            82u32 => Some(Key::KpMinus),
            83u32 => Some(Key::Kp4),
            84u32 => Some(Key::Kp5),
            85u32 => Some(Key::Kp6),
            86u32 => Some(Key::KpPlus),
            87u32 => Some(Key::Kp1),
            88u32 => Some(Key::Kp2),
            89u32 => Some(Key::Kp3),
            90u32 => Some(Key::Kp0),
            91u32 => Some(Key::KpDelete),
            94u32 => Some(Key::IntlBackslash),
            95u32 => Some(Key::F11),
            96u32 => Some(Key::F12),
            104u32 => Some(Key::KpReturn),
            105u32 => Some(Key::ControlRight),
            106u32 => Some(Key::KpDivide),
            107u32 => Some(Key::PrintScreen),
            108u32 => Some(Key::AltGr),
            110u32 => Some(Key::Home),
            111u32 => Some(Key::UpArrow),
            112u32 => Some(Key::PageUp),
            113u32 => Some(Key::LeftArrow),
            114u32 => Some(Key::RightArrow),
            115u32 => Some(Key::End),
            116u32 => Some(Key::DownArrow),
            117u32 => Some(Key::PageDown),
            118u32 => Some(Key::Insert),
            119u32 => Some(Key::Delete),
            127u32 => Some(Key::Pause),
            133u32 => Some(Key::MetaLeft),
            _ => None,
        }
    }

    /// Looks a raw code up. Codes outside the table are common and give `None`.
    pub fn from_raw(code: u32) -> (r: Option<Key>)
        ensures
            r == Key::of_raw(code),
            r matches Some(k) ==> k.raw_code() == code,
            r is None ==> forall|k: Key| #[trigger] k.raw_code() != code,
    {
        let r = match code {
            9u32 => Some(Key::Escape),
            10u32 => Some(Key::Num1),
            11u32 => Some(Key::Num2),
            12u32 => Some(Key::Num3),
            13u32 => Some(Key::Num4),
            14u32 => Some(Key::Num5),
            15u32 => Some(Key::Num6),
            16u32 => Some(Key::Num7),
            17u32 => Some(Key::Num8),
            18u32 => Some(Key::Num9),
            19u32 => Some(Key::Num0),
            20u32 => Some(Key::Minus),
            21u32 => Some(Key::Equal),
            22u32 => Some(Key::Backspace),
            23u32 => Some(Key::Tab),
            24u32 => Some(Key::KeyQ),
            25u32 => Some(Key::KeyW),
            26u32 => Some(Key::KeyE),
            27u32 => Some(Key::KeyR),
            28u32 => Some(Key::KeyT),
            29u32 => Some(Key::KeyY),
            30u32 => Some(Key::KeyU),
            31u32 => Some(Key::KeyI),
            32u32 => Some(Key::KeyO),
            33u32 => Some(Key::KeyP),
            34u32 => Some(Key::LeftBracket),
            35u32 => Some(Key::RightBracket),
            36u32 => Some(Key::Return),
            37u32 => Some(Key::ControlLeft),
            38u32 => Some(Key::KeyA),
            39u32 => Some(Key::KeyS),
            40u32 => Some(Key::KeyD),
            41u32 => Some(Key::KeyF),
            42u32 => Some(Key::KeyG),
            43u32 => Some(Key::KeyH),
            44u32 => Some(Key::KeyJ),
            45u32 => Some(Key::KeyK),
            46u32 => Some(Key::KeyL),
            47u32 => Some(Key::SemiColon),
            48u32 => Some(Key::Quote),
            49u32 => Some(Key::BackQuote),
            50u32 => Some(Key::ShiftLeft),
            51u32 => Some(Key::BackSlash),
            52u32 => Some(Key::KeyZ),
            53u32 => Some(Key::KeyX),
            54u32 => Some(Key::KeyC),
            55u32 => Some(Key::KeyV),
            56u32 => Some(Key::KeyB),
            57u32 => Some(Key::KeyN),
            58u32 => Some(Key::KeyM),
            59u32 => Some(Key::Comma),
            60u32 => Some(Key::Dot),
            61u32 => Some(Key::Slash),
            62u32 => Some(Key::ShiftRight),
            63u32 => Some(Key::KpMultiply),
            64u32 => Some(Key::Alt),
            65u32 => Some(Key::Space),
            66u32 => Some(Key::CapsLock),
            67u32 => Some(Key::F1),
            68u32 => Some(Key::F2),
            69u32 => Some(Key::F3),
            70u32 => Some(Key::F4),
            71u32 => Some(Key::F5),
            72u32 => Some(Key::F6),
            73u32 => Some(Key::F7),
            74u32 => Some(Key::F8),
            75u32 => Some(Key::F9),
            76u32 => Some(Key::F10),
            77u32 => Some(Key::NumLock),
            78u32 => Some(Key::ScrollLock),
            79u32 => Some(Key::Kp7),
            80u32 => Some(Key::Kp8),
            81u32 => Some(Key::Kp9),
            82u32 => Some(Key::KpMinus),
            83u32 => Some(Key::Kp4),
            84u32 => Some(Key::Kp5),
            85u32 => Some(Key::Kp6),
            86u32 => Some(Key::KpPlus),
            87u32 => Some(Key::Kp1),
            88u32 => Some(Key::Kp2),
            89u32 => Some(Key::Kp3),
            90u32 => Some(Key::Kp0),
            91u32 => Some(Key::KpDelete),
            94u32 => Some(Key::IntlBackslash),
            95u32 => Some(Key::F11),
            96u32 => Some(Key::F12),
            104u32 => Some(Key::KpReturn),
            105u32 => Some(Key::ControlRight),
            106u32 => Some(Key::KpDivide),
            107u32 => Some(Key::PrintScreen),
            108u32 => Some(Key::AltGr),
            110u32 => Some(Key::Home),
            111u32 => Some(Key::UpArrow),
            112u32 => Some(Key::PageUp),
            113u32 => Some(Key::LeftArrow),
            114u32 => Some(Key::RightArrow),
            115u32 => Some(Key::End),
            116u32 => Some(Key::DownArrow),
            117u32 => Some(Key::PageDown),
            118u32 => Some(Key::Insert),
            119u32 => Some(Key::Delete),
            127u32 => Some(Key::Pause),
            133u32 => Some(Key::MetaLeft),
            _ => None,
        };
        proof {
            lemma_raw_code_round_trip();
        }
        r
    }

    /// The raw code of the key.
    pub fn raw(self) -> (r: u32)
        ensures
            r == self.raw_code(),
            Key::of_raw(r) == Some(self),
    {
        match self {
            Key::Alt => 64,
            Key::AltGr => 108,
            Key::Backspace => 22,
            Key::CapsLock => 66,
            Key::ControlLeft => 37,
            Key::ControlRight => 105,
            Key::Delete => 119,
            Key::DownArrow => 116,
            Key::End => 115,
            Key::Escape => 9,
            Key::F1 => 67,
            Key::F10 => 76,
            Key::F11 => 95,
            Key::F12 => 96,
            Key::F2 => 68,
            Key::F3 => 69,
            Key::F4 => 70,
            Key::F5 => 71,
            Key::F6 => 72,
            Key::F7 => 73,
            Key::F8 => 74,
            Key::F9 => 75,
            Key::Home => 110,
            Key::LeftArrow => 113,
            Key::MetaLeft => 133,
            Key::PageDown => 117,
            Key::PageUp => 112,
            Key::Return => 36,
            Key::RightArrow => 114,
            Key::ShiftLeft => 50,
            Key::ShiftRight => 62,
            Key::Space => 65,
            Key::Tab => 23,
            Key::UpArrow => 111,
            Key::PrintScreen => 107,
            Key::ScrollLock => 78,
            Key::Pause => 127,
            Key::NumLock => 77,
            Key::BackQuote => 49,
            Key::Num1 => 10,
            Key::Num2 => 11,
            Key::Num3 => 12,
            Key::Num4 => 13,
            Key::Num5 => 14,
            Key::Num6 => 15,
            Key::Num7 => 16,
            Key::Num8 => 17,
            Key::Num9 => 18,
            Key::Num0 => 19,
            Key::Minus => 20,
            Key::Equal => 21,
            Key::KeyQ => 24,
            Key::KeyW => 25,
            Key::KeyE => 26,
            Key::KeyR => 27,
            Key::KeyT => 28,
            Key::KeyY => 29,
            Key::KeyU => 30,
            Key::KeyI => 31,
            Key::KeyO => 32,
            Key::KeyP => 33,
            Key::LeftBracket => 34,
            Key::RightBracket => 35,
            Key::KeyA => 38,
            Key::KeyS => 39,
            Key::KeyD => 40,
            Key::KeyF => 41,
            Key::KeyG => 42,
            Key::KeyH => 43,
            Key::KeyJ => 44,
            Key::KeyK => 45,
            Key::KeyL => 46,
            Key::SemiColon => 47,
            Key::Quote => 48,
            Key::BackSlash => 51,
            Key::IntlBackslash => 94,
            Key::KeyZ => 52,
            Key::KeyX => 53,
            Key::KeyC => 54,
            Key::KeyV => 55,
            Key::KeyB => 56,
            Key::KeyN => 57,
            Key::KeyM => 58,
            Key::Comma => 59,
            Key::Dot => 60,
            Key::Slash => 61,
            Key::Insert => 118,
            Key::KpReturn => 104,
            Key::KpMinus => 82,
            Key::KpPlus => 86,
            Key::KpMultiply => 63,
            Key::KpDivide => 106,
            Key::Kp0 => 90,
            Key::Kp1 => 87,
            Key::Kp2 => 88,
            Key::Kp3 => 89,
            Key::Kp4 => 83,
            Key::Kp5 => 84,
            Key::Kp6 => 85,
            Key::Kp7 => 79,
            Key::Kp8 => 80,
            Key::Kp9 => 81,
            Key::KpDelete => 91,
        }
    }

    /// Looks a raw code up, as `from_raw` does.
    pub fn new(raw_key: u32) -> (r: Option<Key>)
        ensures
            r == Key::of_raw(raw_key),
            r matches Some(k) ==> k.raw_code() == raw_key,
            r is None ==> forall|k: Key| #[trigger] k.raw_code() != raw_key,
    {
        Key::from_raw(raw_key)
    }

    /// The raw code of the key, as `raw` gives it.
    pub fn into(self) -> (r: u32)
        ensures
            r == self.raw_code(),
    {
        self.raw()
    }
}

/// Every key is found again under its own raw code.
pub proof fn lemma_raw_code_round_trip()
    ensures
        forall|k: Key| Key::of_raw(#[trigger] k.raw_code()) == Some(k),
{
}

/// A code that the table maps to a key is that key's raw code.
pub proof fn lemma_of_raw_is_inverse(code: u32)
    ensures
        Key::of_raw(code) matches Some(k) ==> k.raw_code() == code,
{
}

/// Looking a key up by code and taking the code of what was found gives the
/// code back, for every code in the table.
pub proof fn lemma_from_raw_then_raw(code: u32)
    requires
        Key::of_raw(code) is Some,
    ensures
        Key::of_raw(code).unwrap().raw_code() == code,
{
}

/// Two different keys never share a raw code.
pub proof fn lemma_raw_code_injective(a: Key, b: Key)
    requires
        a.raw_code() == b.raw_code(),
    ensures
        a == b,
{
    lemma_raw_code_round_trip();
}

/// Every raw code fits in one byte, which is the width the event header
/// gives it.
pub proof fn lemma_raw_code_fits_byte(k: Key)
    ensures
        8 <= k.raw_code() <= 255,
{
}

} // verus!
