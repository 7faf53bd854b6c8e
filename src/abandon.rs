//! The payload that accompanies an abandoned frame.
use vstd::prelude::*;

verus! {

/// The text that every abandonment payload carries.
pub open spec fn dropped_message() -> Seq<char> {
    "Frame was dropped"@
}

/// Marker handed to a consumer's `cancel` entry point when a frame is dropped
/// before it was released or delivered.
///
/// It carries no information about the computation: every value of this type
/// is the same fixed marker.
pub struct Abandoned {
    message: &'static str,
}

impl View for Abandoned {
    type V = Seq<char>;

    /// The diagnostic text that the marker carries.
    closed spec fn view(&self) -> Seq<char> {
        self.message@
    }
}

impl Abandoned {
    #[verifier::type_invariant]
    spec fn is_marker(self) -> bool {
        self.message@ == dropped_message()
    }

    /// The marker for a frame that was dropped while still owned.
    pub(crate) fn dropped() -> (r: Abandoned)
        ensures
            r@ == dropped_message(),
    {
        proof {
            reveal_strlit("Frame was dropped");
        }
        Abandoned { message: "Frame was dropped" }
    }

    /// The diagnostic text of the marker.
    pub fn message(&self) -> (r: &str)
        ensures
            r@ == self@,
            r@ == dropped_message(),
            r@.len() > 0,
    {
        proof {
            use_type_invariant(self);
            reveal_strlit("Frame was dropped");
        }
        self.message
    }
}

} // verus!
