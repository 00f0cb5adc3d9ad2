use vstd::prelude::*;

verus! {

/// The unlock of one portal between the two worlds, by its number.
#[derive(Clone, Copy, Debug, PartialEq, Eq, Hash, Structural)]
pub struct Portal {
    pub id: u8,
}

impl Portal {
    /// The display name of a portal unlock.
    pub open spec fn name(self) -> &'static str {
        "Portal"
    }

    pub fn as_str(self) -> (r: &'static str)
        ensures
            r == self.name(),
    {
        "Portal"
    }
}

} // verus!
