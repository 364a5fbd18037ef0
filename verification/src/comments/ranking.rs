//! Thread order as the order of comment entries: `<` and its kin on entries go by
//! the thread key.

use core::cmp::Ordering;
use vstd::prelude::*;
use vstd::std_specs::cmp::PartialOrdSpecImpl;

use crate::comments::order::{key_lt, Placement};
use crate::comments::response::CommentResponse;

verus! {

impl PartialOrd for CommentResponse {
    /// How this entry stands to `rhs` in thread order.
    fn partial_cmp(&self, rhs: &Self) -> (order: Option<Ordering>) {
        match self.placement(rhs) {
            Placement::Before => Some(Ordering::Less),
            Placement::Same => Some(Ordering::Equal),
            Placement::After => Some(Ordering::Greater),
        }
    }
}

impl PartialOrdSpecImpl for CommentResponse {
    open spec fn obeys_partial_cmp_spec() -> bool {
        true
    }

    open spec fn partial_cmp_spec(&self, rhs: &Self) -> Option<Ordering> {
        if key_lt(self.thread_key(), rhs.thread_key()) {
            Some(Ordering::Less)
        } else if key_lt(rhs.thread_key(), self.thread_key()) {
            Some(Ordering::Greater)
        } else {
            Some(Ordering::Equal)
        }
    }
}

} // verus!
