//! Events: the backend's raw record, the typed event, and the decoding from
//! one to the other.

use vstd::prelude::*;
use crate::keyboard::{ExtendedKey, Key, Modifiers};
use crate::mouse::Mouse;

verus! {

/// The event record as the backend fills it: numbers only.
#[derive(Clone, Copy, PartialEq, Eq, Debug, Structural)]
pub struct RawEvent {
    pub etype: u8,
    pub meta: u8,
    pub key: u16,
    pub ch: u32,
    pub w: i16,
    pub h: i16,
    pub x: i16,
    pub y: i16,
}

impl RawEvent {
    /// The record with every field zero, as it is handed to the backend to
    /// be filled.
    pub open spec fn zeroed() -> RawEvent {
        RawEvent { etype: 0, meta: 0, key: 0, ch: 0, w: 0, h: 0, x: 0, y: 0 }
    }

    pub fn nil() -> (r: RawEvent)
        ensures
            r == Self::zeroed(),
    {
        RawEvent { etype: 0, meta: 0, key: 0, ch: 0, w: 0, h: 0, x: 0, y: 0 }
    }
}

/// The backend's code for "nothing happened".
pub const EVENT_NONE: i32 = 0;
pub const EVENT_KEY: i32 = 1;
pub const EVENT_RESIZE: i32 = 2;
pub const EVENT_MOUSE: i32 = 3;
/// The backend's code for its own failure while it waited for an event.
pub const EVENT_FAILED: i32 = -1;

/// What happened at the terminal, decoded.
#[derive(Clone, Copy, PartialEq, Eq, Debug, Structural)]
pub enum Event {
    /// A key event as it came: modifier byte, key code, character code.
    KeyEventRaw(u8, u16, u32),
    KeyEvent(ExtendedKey),
    /// The new width and height.
    ResizeEvent(i16, i16),
    /// The button, then column and row.
    MouseEvent(Mouse, i16, i16),
    NoEvent,
}

/// Why no event could be had.
#[derive(Clone, Copy, PartialEq, Eq, Debug, Structural)]
pub enum EventError {
    /// The backend failed while it waited.
    TermboxError,
    /// The backend returned a status that is no event type, kept here.
    Unknown(isize),
}

pub type EventResult = Result<Event, EventError>;

impl EventError {
    /// The error that a status code of the backend stands for.
    pub open spec fn of_code(n: int) -> EventError {
        if n == -1 {
            EventError::TermboxError
        } else {
            EventError::Unknown(n as isize)
        }
    }

    /// The words of `description`.
    pub open spec fn description_text(&self) -> Seq<char> {
        match *self {
            EventError::TermboxError => "Error in Termbox"@,
            EventError::Unknown(_) => "Unknown error in Termbox"@,
        }
    }

    pub fn description(&self) -> (r: &'static str)
        ensures
            r@ == self.description_text(),
    {
        match *self {
            EventError::TermboxError => "Error in Termbox",
            EventError::Unknown(_) => "Unknown error in Termbox",
        }
    }

    /// Always `Some`: every code stands for an error.
    pub fn from_i64(n: i64) -> (r: Option<EventError>)
        ensures
            r == Some(Self::of_code(n as int)),
    {
        if n == -1 {
            Some(EventError::TermboxError)
        } else {
            Some(EventError::Unknown(#[verifier::truncate] (n as isize)))
        }
    }

    /// Always `Some`, and never the backend's own failure, whose code is
    /// negative.
    pub fn from_u64(n: u64) -> (r: Option<EventError>)
        ensures
            r == Some(EventError::Unknown(n as isize)),
    {
        Some(EventError::Unknown(#[verifier::truncate] (n as isize)))
    }

    /// Always `Some`: every code stands for an error.
    pub fn from_isize(n: isize) -> (r: Option<EventError>)
        ensures
            r == Some(Self::of_code(n as int)),
    {
        if n == -1 {
            Some(EventError::TermboxError)
        } else {
            Some(EventError::Unknown(n))
        }
    }
}

/// Whether `code` is a Unicode scalar value: a code point that is no
/// surrogate.
pub open spec fn is_scalar_value(code: u32) -> bool {
    code <= 0xD7FF || 0xE000 <= code <= 0x10FFFF
}

/// The character with the given code, if there is one.
pub open spec fn char_of(code: u32) -> Option<char> {
    if is_scalar_value(code) {
        Some(code as char)
    } else {
        None
    }
}

pub open spec fn is_ascii_upper(c: char) -> bool {
    'A' <= c <= 'Z'
}

pub open spec fn is_ascii_lower(c: char) -> bool {
    'a' <= c <= 'z'
}

/// The lower-case letter of an upper-case ASCII letter.
pub open spec fn lower_of(c: char) -> char
    recommends
        is_ascii_upper(c),
{
    (c as u32 + 32) as char
}

/// `char::from_u32` of std: the character whose code is `code`, and `None`
/// where `code` is a surrogate or lies beyond the last code point.
#[verifier::external_body]
fn char_from_u32(code: u32) -> (r: Option<char>)
    ensures
        r == char_of(code),
{
    char::from_u32(code)
}

/// What a key event without a key code stands for: the character of its
/// character code, an upper-case ASCII letter taken as Shift with the
/// lower-case letter; where the code is no character, an unknown key.
pub open spec fn key_of_char(event_key: u16, event_char: u32) -> (Key, Modifiers) {
    match char_of(event_char) {
        Some(c) => if is_ascii_upper(c) {
            (Key::Char(lower_of(c)), Modifiers::only_shift())
        } else {
            (Key::Char(c), Modifiers::none())
        },
        None => (Key::Unknown(event_key), Modifiers::none()),
    }
}

/// Decodes a key event that carries a character and no key code. Only
/// Shift is ever inferred, and only from an upper-case ASCII letter.
pub fn unpack_key(event_key: u16, event_char: u32) -> (r: Option<ExtendedKey>)
    ensures
        r == Some(
            ExtendedKey::fresh(
                key_of_char(event_key, event_char).0,
                key_of_char(event_key, event_char).1,
            ),
        ),
{
    match char_from_u32(event_char) {
        Some(c) => {
            if 'A' <= c && c <= 'Z' {
                let letter: u8 = c as u8;
                let lowered: u8 = letter + 32;
                Some(ExtendedKey::new(Key::Char(lowered as char), Modifiers::new_all(false, true, false)))
            } else {
                Some(ExtendedKey::new(Key::Char(c), Modifiers::new()))
            }
        },
        None => Some(ExtendedKey::new(Key::Unknown(event_key), Modifiers::new())),
    }
}

/// The key and modifiers of a key event: by its character where it has no
/// key code, else by the table, and an unknown key where the table lacks
/// the code.
pub open spec fn key_of_event(ev: RawEvent) -> (Key, Modifiers) {
    if ev.key == 0 {
        key_of_char(ev.key, ev.ch)
    } else {
        match crate::keyboard::key_of_code(ev.key) {
            Some(pair) => pair,
            None => (Key::Unknown(ev.key), Modifiers::none()),
        }
    }
}

/// The decoded key press of a key event, with the event's own three fields
/// kept beside the key.
pub open spec fn extended_key_of(ev: RawEvent) -> ExtendedKey {
    ExtendedKey {
        modifiers: key_of_event(ev).1,
        key: key_of_event(ev).0,
        raw_emod: ev.meta,
        raw_ch: ev.ch,
        raw_key: ev.key,
    }
}

/// What `unpack_event` returns.
pub open spec fn unpacked(ev_type: i32, ev: RawEvent, raw: bool) -> EventResult {
    if ev_type == EVENT_NONE {
        Ok(Event::NoEvent)
    } else if ev_type == EVENT_KEY {
        if raw {
            Ok(Event::KeyEventRaw(ev.meta, ev.key, ev.ch))
        } else {
            Ok(Event::KeyEvent(extended_key_of(ev)))
        }
    } else if ev_type == EVENT_RESIZE {
        Ok(Event::ResizeEvent(ev.w, ev.h))
    } else if ev_type == EVENT_MOUSE {
        Ok(Event::MouseEvent(Mouse::decoded_or_left(ev.key), ev.x, ev.y))
    } else {
        Err(EventError::of_code(ev_type as int))
    }
}

/// Turns what the backend returned, its status `ev_type` and the record
/// `ev` that it filled, into an event. With `raw` a key event is passed on
/// undecoded. Any status that is no event type is an error.
pub fn unpack_event(ev_type: i32, ev: &RawEvent, raw: bool) -> (r: EventResult)
    ensures
        r == unpacked(ev_type, *ev, raw),
        r is Ok <==> EVENT_NONE <= ev_type <= EVENT_MOUSE,
{
    match ev_type {
        0 => Ok(Event::NoEvent),
        1 => {
            if raw {
                Ok(Event::KeyEventRaw(ev.meta, ev.key, ev.ch))
            } else {
                let k = if ev.key == 0 {
                    unpack_key(ev.key, ev.ch)
                } else {
                    ExtendedKey::from_code(ev.key)
                };
                let mut actual_key = match k {
                    Some(key) => key,
                    None => ExtendedKey::new(Key::Unknown(ev.key), Modifiers::new()),
                };
                actual_key.raw_emod = ev.meta;
                actual_key.raw_key = ev.key;
                actual_key.raw_ch = ev.ch;
                Ok(Event::KeyEvent(actual_key))
            }
        },
        2 => Ok(Event::ResizeEvent(ev.w, ev.h)),
        3 => {
            let mouse = match Mouse::from_code(ev.key) {
                Some(button) => button,
                None => Mouse::Left,
            };
            Ok(Event::MouseEvent(mouse, ev.x, ev.y))
        },
        n => {
            match EventError::from_isize(n as isize) {
                Some(e) => Err(e),
                None => Err(EventError::Unknown(n as isize)),
            }
        },
    }
}

/// An upper-case ASCII letter that comes without a key code decodes to its
/// lower-case letter with Shift and nothing else; a lower-case letter
/// decodes to itself with no modifier.
pub proof fn lemma_letter_case_decides_shift(event_key: u16, c: char)
    ensures
        is_ascii_upper(c) ==> {
            &&& key_of_char(event_key, c as u32) == (Key::Char(lower_of(c)), Modifiers::only_shift())
            &&& is_ascii_lower(lower_of(c))
            &&& lower_of(c) as u32 == c as u32 + 32
        },
        is_ascii_lower(c) ==> key_of_char(event_key, c as u32) == (Key::Char(c), Modifiers::none()),
{
}

/// Decoding never fails on an event type: the four types give an event
/// whatever the record holds, the backend's failure code gives
/// `TermboxError`, and every other status gives `Unknown` with that status.
pub proof fn lemma_unpack_is_total(ev_type: i32, ev: RawEvent, raw: bool)
    ensures
        EVENT_NONE <= ev_type <= EVENT_MOUSE <==> unpacked(ev_type, ev, raw) is Ok,
        ev_type == EVENT_FAILED ==> unpacked(ev_type, ev, raw) == Err::<Event, EventError>(
            EventError::TermboxError,
        ),
        !(EVENT_FAILED <= ev_type <= EVENT_MOUSE) ==> unpacked(ev_type, ev, raw) == Err::<
            Event,
            EventError,
        >(EventError::Unknown(ev_type as isize)),
{
}

/// A decoded key event keeps the record's modifier byte, character code and
/// key code, whether or not the key was recognised.
pub proof fn lemma_key_event_keeps_raw_fields(ev: RawEvent)
    ensures
        unpacked(EVENT_KEY, ev, false) matches Ok(Event::KeyEvent(k)) && k.raw_emod == ev.meta
            && k.raw_ch == ev.ch && k.raw_key == ev.key,
        unpacked(EVENT_KEY, ev, true) == Ok::<Event, EventError>(
            Event::KeyEventRaw(ev.meta, ev.key, ev.ch),
        ),
{
}

} // verus!
