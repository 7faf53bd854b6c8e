//! The capabilities that executors and result handlers implement.
use vstd::prelude::*;

use crate::abandon::Abandoned;
use crate::frame::Frame;

verus! {

/// The consumer of the outcome `T` of the computation `F`.
///
/// Both entry points consume the handle they are given, so a handle reaches
/// at most one of them.
pub trait Resume<F, T> where F: ?Sized {
    /// Normal completion: the computation produced `value`.
    fn resume(frame: Frame<F, Self>, value: T);

    /// Abandonment: the handle was ended while it still owned its
    /// computation. Reached through [`Frame::abandon`], with the fixed marker.
    ///
    /// An implementation takes over the computation's storage through `frame`,
    /// typically by giving the handle up with [`Frame::into_raw`] and then
    /// disposing of what lives at that address.
    fn cancel(frame: Frame<F, Self>, payload: Abandoned);
}

/// A computation that eventually produces an `Output`.
pub trait Future {
    type Output;

    /// Arranges for the computation owned by `frame` to run, and for its
    /// outcome to reach `R`.
    fn schedule<R>(frame: Frame<Self, R>) where R: Resume<Self, Self::Output>;
}

} // verus!
