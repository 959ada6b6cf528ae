//! A type-safe layer over the kqueue event-notification facility of the
//! BSD-derived operating systems, modelling the Darwin family: the event
//! record that maps onto the kernel's native layout, the closed filter
//! enumeration, the control-flag and note-flag bit-sets, the conversion
//! from a millisecond timeout to the native two-field representation, and
//! the interpretation of a raw syscall return value. The syscall itself is
//! left to the hosting program; everything this crate computes is verified.

pub mod event;
pub mod filter;
pub mod flags;
pub mod outcome;
pub mod timeout;

pub use event::KEvent;
pub use event::ev_set;
pub use filter::EventFilter;
pub use filter::filter_from_raw;
pub use flags::EventFlag;
pub use flags::FilterFlag;
pub use outcome::OsError;
pub use outcome::interpret_return;
pub use timeout::TimeSpec;
pub use timeout::to_native;
