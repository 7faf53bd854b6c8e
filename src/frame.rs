//! The owning handle, its conversion to and from a plain address, and the
//! abandonment path for a handle that is ended while it still owns its
//! computation.
use vstd::prelude::*;

use core::marker::PhantomData;

use crate::abandon::{dropped_message, Abandoned};
use crate::contracts::{Future, Resume};

verus! {

/// Exclusive owner of the computation that lives at a non-zero address.
///
/// `R` is the consumer that receives the computation's outcome. Every way of
/// ending a handle consumes it: [`Frame::into_raw`] gives the address up,
/// the consumer's `resume` delivers a value, and [`Frame::abandon`] hands the
/// handle to the consumer's `cancel`. A handle is neither `Clone` nor `Copy`,
/// so no computation is ever owned twice or reaches two of these ends.
///
/// `Frame` has no destructor: dropping one directly calls nothing, and the
/// computation at its address is left to leak. Code that wants abandonment to
/// happen on drop holds the frame in a guard that calls [`Frame::abandon`].
pub struct Frame<F, R> where F: ?Sized, R: ?Sized {
    addr: usize,
    _future: PhantomData<F>,
    _resume: PhantomData<R>,
}

impl<F, R> View for Frame<F, R> where F: ?Sized, R: ?Sized {
    type V = usize;

    /// The address of the computation that the handle owns.
    closed spec fn view(&self) -> usize {
        self.addr
    }
}

impl<F, R> Frame<F, R> where F: ?Sized, R: ?Sized {
    /// A live handle never holds the null address.
    #[verifier::type_invariant]
    spec fn non_null(self) -> bool {
        self.addr != 0
    }

    /// The address of the owned computation, for the holder to reach it in
    /// the storage where it lives. The handle keeps ownership.
    pub fn address(&self) -> (r: usize)
        ensures
            r == self@,
            r != 0,
    {
        proof {
            use_type_invariant(self);
        }
        self.addr
    }

    /// Gives up the handle and returns the address it owned. Ownership passes
    /// to the caller: the consumer hears nothing of this handle afterwards.
    pub fn into_raw(frame: Frame<F, R>) -> (r: usize)
        ensures
            r == frame@,
            r != 0,
    {
        proof {
            use_type_invariant(&frame);
        }
        frame.addr
    }

    /// Takes ownership of the computation at `addr`.
    ///
    /// The caller vouches that `addr` names a live computation that no other
    /// handle owns, typically one obtained from [`Frame::into_raw`].
    pub fn from_raw(addr: usize) -> (r: Frame<F, R>)
        requires
            addr != 0,
        ensures
            r@ == addr,
    {
        Frame { addr, _future: PhantomData, _resume: PhantomData }
    }
}

/// Giving up a handle made from an address returns that address, and a
/// handle taken back from it owns the same computation as the first.
pub proof fn lemma_raw_round_trip<F, R>(
    addr: usize,
    made: Frame<F, R>,
    released: usize,
    retaken: Frame<F, R>,
) where F: ?Sized, R: ?Sized
    requires
        addr != 0,
        call_ensures(Frame::<F, R>::from_raw, (addr,), made),
        call_ensures(Frame::<F, R>::into_raw, (made,), released),
        call_ensures(Frame::<F, R>::from_raw, (released,), retaken),
    ensures
        released == addr,
        retaken@ == made@,
{
}

impl<F, R> Frame<F, R> where F: Future + ?Sized, R: Resume<F, F::Output> + ?Sized {
    /// Ends a handle that still owns its computation without delivering a
    /// value: `R::cancel` receives a handle over the same address, so the
    /// consumer can take over the storage there, together with the fixed
    /// abandonment marker.
    pub fn abandon(frame: Frame<F, R>)
        ensures
            exists|g: Frame<F, R>, p: Abandoned|
                g@ == frame@ && p@ == dropped_message() && call_ensures(R::cancel, (g, p), ()),
    {
        let ghost g = frame;
        let payload = Abandoned::dropped();
        let ghost p = payload;
        R::cancel(frame, payload);
        assert(call_ensures(R::cancel, (g, p), ()));
    }
}

} // verus!
