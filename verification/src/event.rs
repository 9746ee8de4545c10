//! Key events as the controller's event FIFO reports them.

use vstd::prelude::*;
use crate::key::{unpack, Key};

verus! {

/// The byte that fills an empty slot of a FIFO read.
pub const FIFO_EMPTY: u8 = 0xFF;

/// What a key did, or the level it is held at.
#[derive(Clone, Copy, Debug, PartialEq, Eq)]
pub enum Event {
    /// The key is held down (level).
    High,
    /// The key is up (level).
    Low,
    /// The key went down (edge).
    Falling,
    /// The key came up (edge).
    Rising,
}

impl Event {
    /// The event kind that a code stands for; the codes 0 to 3 are defined.
    pub open spec fn of_code(code: u8) -> Option<Event> {
        if code == 0 {
            Some(Event::High)
        } else if code == 1 {
            Some(Event::Low)
        } else if code == 2 {
            Some(Event::Falling)
        } else if code == 3 {
            Some(Event::Rising)
        } else {
            None
        }
    }

    /// The code under which the controller reports this event kind.
    pub open spec fn code(self) -> u8 {
        match self {
            Event::High => 0,
            Event::Low => 1,
            Event::Falling => 2,
            Event::Rising => 3,
        }
    }

    /// Decodes an event kind; `None` for a code that names no kind.
    pub fn from_code(code: u8) -> (event: Option<Event>)
        ensures
            event == Event::of_code(code),
    {
        match code {
            0 => Some(Event::High),
            1 => Some(Event::Low),
            2 => Some(Event::Falling),
            3 => Some(Event::Rising),
            _ => None,
        }
    }

    /// The code of this event kind.
    pub fn to_code(self) -> (code: u8)
        ensures
            code == self.code(),
    {
        match self {
            Event::High => 0,
            Event::Low => 1,
            Event::Falling => 2,
            Event::Rising => 3,
        }
    }
}

/// One entry of the event FIFO: which key, and what it did.
#[derive(Clone, Copy, Debug, PartialEq, Eq)]
pub struct KeypadEvent {
    /// Linear index of the key.
    pub key: u8,
    pub event: Event,
}

impl KeypadEvent {
    /// What one byte of a FIFO read holds. The empty marker holds nothing.
    /// Any other byte carries the packed key identifier in its upper six bits
    /// and the event code in its lower two.
    pub open spec fn of_fifo_byte(byte: u8) -> Option<KeypadEvent> {
        if byte == FIFO_EMPTY {
            None
        } else {
            Some(
                KeypadEvent {
                    key: unpack(byte >> 2),
                    event: Event::of_code(byte & 0x03).unwrap(),
                },
            )
        }
    }

    /// Decodes one byte of a FIFO read.
    pub fn decode(byte: u8) -> (slot: Option<KeypadEvent>)
        ensures
            slot == KeypadEvent::of_fifo_byte(byte),
    {
        if byte == FIFO_EMPTY {
            return None;
        }
        let code: u8 = byte & 0x03;
        assert(code < 4) by (bit_vector)
            requires
                code == byte & 0x03,
        ;
        match Event::from_code(code) {
            Some(event) => Some(KeypadEvent { key: Key::deserialize(byte >> 2).as_index(), event }),
            None => None,
        }
    }

    /// What a whole FIFO read holds, slot by slot.
    pub open spec fn of_fifo_bytes(data: Seq<u8>) -> Seq<Option<KeypadEvent>> {
        Seq::new(data.len(), |i: int| KeypadEvent::of_fifo_byte(data[i]))
    }

    /// Decodes a FIFO read into `events`, one slot per byte, in the order of
    /// the bytes.
    pub fn decode_all(data: &[u8], events: &mut [Option<KeypadEvent>])
        requires
            data@.len() == old(events)@.len(),
        ensures
            final(events)@ == KeypadEvent::of_fifo_bytes(data@),
    {
        let mut i: usize = 0;
        while i < data.len()
            invariant
                i <= data@.len(),
                events@.len() == data@.len(),
                forall|j: int| 0 <= j < i ==> events@[j] == KeypadEvent::of_fifo_byte(data@[j]),
            decreases data@.len() - i,
        {
            events[i] = KeypadEvent::decode(data[i]);
            i += 1;
        }
        assert(events@ =~= KeypadEvent::of_fifo_bytes(data@));
    }
}

/// Every byte carries a defined event kind in its low two bits, so decoding
/// a FIFO byte never meets an undefined code.
pub proof fn lemma_low_bits_name_a_kind(byte: u8)
    ensures
        Event::of_code(byte & 0x03) is Some,
{
    assert(byte & 0x03 < 4) by (bit_vector);
}

/// A code and its event kind determine each other.
pub proof fn lemma_event_code_round_trip(event: Event, code: u8)
    ensures
        Event::of_code(event.code()) == Some(event),
        Event::of_code(code) is Some <==> code < 4,
        Event::of_code(code) is Some ==> Event::of_code(code).unwrap().code() == code,
{
}

} // verus!
