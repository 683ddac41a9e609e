use vstd::prelude::*;

verus! {

/// Our membership in a room.
#[derive(Clone, Copy, Debug, PartialEq, Eq, Structural)]
pub enum Membership {
    Invited,
    Joined,
    Left,
}

} // verus!
