//! The map list that the self-hosted API serves as one document.

use crate::text::same_text;
use vstd::prelude::*;

verus! {

/// The item type that the map list announces.
pub const EXPECTED_ITEM_TYPE: &'static str = "maps";

/// Whether a document announces the item type of the map list. A document
/// that announces another type is still used, and worth a warning.
pub fn is_expected_item_type(item_type: &str) -> (expected: bool)
    ensures
        expected == (item_type@ == EXPECTED_ITEM_TYPE@),
{
    same_text(item_type, EXPECTED_ITEM_TYPE)
}

} // verus!
