use vstd::prelude::*;

verus! {

/// A protocol upgrade stage, strictly ordered. `LATEST` permanently aliases
/// the newest concrete version of the ladder.
#[derive(Debug, Copy, Clone, Eq, PartialEq, Hash, Ord, PartialOrd, Structural)]
pub enum SpecId {
    HOMESTEAD,
    BYZANTIUM,
    ISTANBUL,
    BERLIN,
    LATEST,
}

impl SpecId {
    /// Ordinal position of this version in the upgrade ladder.
    pub open spec fn spec_ordinal(self) -> u8 {
        match self {
            SpecId::HOMESTEAD => 0,
            SpecId::BYZANTIUM => 1,
            SpecId::ISTANBUL => 2,
            SpecId::BERLIN => 3,
            SpecId::LATEST => 4,
        }
    }

    /// The ordinal as an executable value.
    pub fn ordinal(self) -> (r: u8)
        ensures
            r == self.spec_ordinal(),
    {
        match self {
            SpecId::HOMESTEAD => 0,
            SpecId::BYZANTIUM => 1,
            SpecId::ISTANBUL => 2,
            SpecId::BERLIN => 3,
            SpecId::LATEST => 4,
        }
    }

    /// A feature introduced at version `self` is active under the ladder
    /// position `spec_id` exactly when that position is at or past `self`.
    pub fn enabled(self, spec_id: u8) -> (r: bool)
        ensures
            r == (spec_id >= self.spec_ordinal()),
    {
        spec_id >= self.ordinal()
    }
}

} // verus!
