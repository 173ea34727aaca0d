//! Wire codec for the command protocol of an addressable-LED controller.
//!
//! A [`Command`] is one of four things a host can ask of the controller:
//! a health check, a constant fill, a raw colour stream or a pulse. It
//! travels in two forms:
//!
//! * a compact binary frame, written to and read from caller-supplied
//!   buffers ([`embedded`], [`owned`]), appended to a byte vector
//!   ([`std_write`]) or queued, length-prefixed, in a ring buffer
//!   ([`rbf_write`]);
//! * a keyed document of named fields for self-describing text formats
//!   ([`keyed`]).
//!
//! Both codecs are pure functions of their input. What a frame and a
//! document are is stated in [`wire`] and [`keyed`] over the view of a
//! command, [`CommandView`]; every function of the codecs is proved
//! against those statements, and so are the laws that hold of the codecs
//! as a whole: decoding what was encoded gives the command back, a frame
//! is as long as announced, and a document means the same in whatever
//! order its entries stand.

pub mod command;
pub mod embedded;
pub mod error;
pub mod keyed;
pub mod owned;
pub mod rbf_write;
pub mod std_write;
pub mod wire;

pub use command::{Command, CommandView, Payload, Rgb};
pub use error::CommandError;
pub use keyed::de::CommandVisitor;
pub use keyed::document::{CommandVariant, Field, KeyedEntry, KeyedValue};
pub use keyed::error::KeyedError;
