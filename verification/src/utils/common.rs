//! The account regions and the games known to the service.

use vstd::prelude::*;

verus! {

/// The endpoint family an account belongs to.
#[derive(PartialEq, Eq, Structural, Hash, Clone, Copy, Debug)]
pub enum Region {
    Overseas,
    Chinese,
}

/// The games an account can be bound to.
#[derive(PartialEq, Eq, Structural, Hash, Clone, Copy, Debug)]
pub enum Game {
    Genshin,
    Honkai,
    Starrail,
    ZZZ,
    Tot,
}

impl Region {
    /// The region's name as text.
    pub open spec fn name(self) -> Seq<char> {
        match self {
            Region::Overseas => "Overseas"@,
            Region::Chinese => "Chinese"@,
        }
    }

    /// Returns the region's name.
    pub fn to_string(&self) -> (r: String)
        ensures
            r@ == self.name(),
    {
        match self {
            Region::Overseas => "Overseas".to_owned(),
            Region::Chinese => "Chinese".to_owned(),
        }
    }
}

} // verus!
