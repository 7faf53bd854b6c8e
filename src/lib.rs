//! An owning handle to a pending computation, and the two capability traits
//! that say how the computation is scheduled and how its outcome is delivered.
//!
//! A [`Frame`] is the only owner of the computation it names. It can be given
//! up as a plain address, so that a scheduler can keep pending work in storage
//! of its own, and taken back from that address later. A frame that is ended
//! without being given up or delivered goes, through [`Frame::abandon`], to its
//! consumer's `cancel` entry point together with an [`Abandoned`] marker.
//!
//! A frame has no destructor: one that is simply dropped calls nothing and
//! leaves its computation to leak. Automatic abandonment on drop needs a guard
//! that owns the frame and calls [`Frame::abandon`] from its own `drop`.

pub mod abandon;
pub mod contracts;
pub mod frame;

pub use abandon::Abandoned;
pub use contracts::{Future, Resume};
pub use frame::Frame;
