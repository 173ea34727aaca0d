//! The command data model.

use vstd::prelude::*;

verus! {

/// One LED's colour: red, green and blue, each an unconstrained 8-bit value.
pub type Rgb = (u8, u8, u8);

/// Storage that can be read as a byte sequence.
///
/// A stream payload may borrow caller memory or own its buffer; a
/// [`Command`] is generic over which.
pub trait Payload {
    /// The bytes held, as a mathematical sequence.
    spec fn bytes(&self) -> Seq<u8>;

    /// The bytes held.
    fn as_bytes(&self) -> (slice: &[u8])
        ensures
            slice@ == self.bytes(),
    ;
}

impl<'a> Payload for &'a [u8] {
    open spec fn bytes(&self) -> Seq<u8> {
        (*self)@
    }

    fn as_bytes(&self) -> (slice: &[u8]) {
        *self
    }
}

impl Payload for Vec<u8> {
    open spec fn bytes(&self) -> Seq<u8> {
        self@
    }

    fn as_bytes(&self) -> (slice: &[u8]) {
        self.as_slice()
    }
}

/// A command for the LED controller.
#[derive(Debug, PartialEq)]
pub enum Command<T> {
    /// Liveness probe; carries nothing.
    Health,
    /// Fill `led_count` LEDs with one colour.
    Constant { led_count: u16, colour: Rgb },
    /// Raw colours, three bytes (red, green, blue) per LED.
    Stream(T),
    /// Fade `led_count` LEDs from `start` to `end` in `frames` steps spread
    /// over `period`.
    Pulse { led_count: u16, start: Rgb, end: Rgb, frames: u8, period: u16 },
}

/// What a [`Command`] says, whatever storage backs its payload.
pub enum CommandView {
    Health,
    Constant { led_count: u16, colour: Rgb },
    Stream(Seq<u8>),
    Pulse { led_count: u16, start: Rgb, end: Rgb, frames: u8, period: u16 },
}

impl CommandView {
    /// A stream carries whole RGB triplets; the other commands are always
    /// valid.
    pub open spec fn valid(self) -> bool {
        self matches CommandView::Stream(payload) ==> payload.len() % 3 == 0
    }

    /// The length of the binary frame: one header byte and the payload.
    pub open spec fn size(self) -> nat {
        match self {
            CommandView::Health => 1,
            CommandView::Constant { .. } => 6,
            CommandView::Stream(payload) => payload.len() + 1,
            CommandView::Pulse { .. } => 12,
        }
    }
}

impl<T: Payload> View for Command<T> {
    type V = CommandView;

    open spec fn view(&self) -> CommandView {
        match *self {
            Command::Health => CommandView::Health,
            Command::Constant { led_count, colour } => CommandView::Constant { led_count, colour },
            Command::Stream(payload) => CommandView::Stream(payload.bytes()),
            Command::Pulse { led_count, start, end, frames, period } => CommandView::Pulse {
                led_count,
                start,
                end,
                frames,
                period,
            },
        }
    }
}

/// Whether `copy` is a clone of `source`: the same command, with a stream
/// payload that is a clone of the payload of `source`.
pub open spec fn is_clone_of<T: Clone>(source: Command<T>, copy: Command<T>) -> bool {
    match source {
        Command::Stream(payload) => copy matches Command::Stream(copied) && cloned::<T>(
            payload,
            copied,
        ),
        _ => copy == source,
    }
}

impl<T: Clone> Clone for Command<T> {
    fn clone(&self) -> (copy: Self)
        ensures
            is_clone_of(*self, copy),
    {
        match self {
            Self::Health => Self::Health,
            Self::Constant { led_count, colour } => Self::Constant {
                led_count: *led_count,
                colour: *colour,
            },
            Self::Stream(inner) => Self::Stream(inner.clone()),
            Self::Pulse { led_count, start, end, frames, period } => Self::Pulse {
                led_count: *led_count,
                start: *start,
                end: *end,
                frames: *frames,
                period: *period,
            },
        }
    }
}

impl<T: Payload> Command<T> {
    /// The exact length of the binary frame of this command: the payload and
    /// one byte for the header.
    ///
    /// The length must be a `usize`: a stream payload of `usize::MAX` bytes
    /// has no frame that a buffer could hold.
    pub fn size_in_bytes(&self) -> (size: usize)
        requires
            self@.size() <= usize::MAX,
        ensures
            size == self@.size(),
    {
        match self {
            Command::Constant { .. } => 6,
            Command::Stream(payload) => payload.as_bytes().len() + 1,
            Command::Pulse { .. } => 12,
            Command::Health => 1,
        }
    }
}

} // verus!
