//! Why a query for a shop's stock fails as a whole.

use vstd::prelude::*;

verus! {

/// A query either gives every row of its window or fails with one of these.
#[derive(Clone, Copy, Debug, PartialEq, Eq, Structural)]
pub enum StockError {
    /// The object catalog lacks an entry that a shop's algorithm came to.
    ObjectInformation,
    /// The big craftables catalog lacks an entry that a shop's algorithm came to.
    BigCraftablesInformation,
    /// The furniture catalog lacks an entry that a shop's algorithm came to.
    Furniture,
    /// The clothing catalog lacks an entry that a shop's algorithm came to.
    ClothingInformation,
    /// The hats catalog lacks an entry that a shop's algorithm came to.
    Hats,
}

impl StockError {
    /// The message shown to the player.
    pub open spec fn spec_message(self) -> Seq<char> {
        match self {
            StockError::ObjectInformation => "Error getting object information."@,
            StockError::BigCraftablesInformation => "Error getting big craftables information."@,
            StockError::Furniture => "Error getting furniture."@,
            StockError::ClothingInformation => "Error getting clothing information."@,
            StockError::Hats => "Error getting hats."@,
        }
    }

    /// The message shown to the player.
    pub fn to_string(&self) -> (message: String)
        ensures
            message@ == self.spec_message(),
    {
        match self {
            StockError::ObjectInformation => String::from_str("Error getting object information."),
            StockError::BigCraftablesInformation => String::from_str(
                "Error getting big craftables information.",
            ),
            StockError::Furniture => String::from_str("Error getting furniture."),
            StockError::ClothingInformation => String::from_str(
                "Error getting clothing information.",
            ),
            StockError::Hats => String::from_str("Error getting hats."),
        }
    }
}

} // verus!
