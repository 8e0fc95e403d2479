//! The bare pair of interrupt registers, with no behaviour of its own.

use vstd::prelude::*;

verus! {

#[derive(Clone, Copy, Debug, PartialEq, Eq, Structural)]
pub struct InterruptController {
    pub ie: u8,
    pub _if: u8,
}

impl InterruptController {
    pub fn new() -> (r: Self)
        ensures
            r == (InterruptController { ie: 0, _if: 0 }),
    {
        Self { ie: 0, _if: 0 }
    }
}

} // verus!
