//! The mod search by version and keyword.

use crate::text::lowercase;
use crate::utils::mod_fetch::{resolve_version, slug_of_lowered};
use vstd::prelude::*;
use vstd::string::StringExecFns;

verus! {

/// What is sent when no mod of the version answers the keyword.
pub const NO_MOD_FOUND: &'static str = "No matching mod found in the specified version.";

/// Why a search cannot start when the version is not given.
pub const MISSING_VERSION: &'static str = "Missing version option";

/// The version alias that suggestions assume where none was chosen.
pub const DEFAULT_ALIAS: &'static str = "public";

/// The slug that suggestions fall back to for an alias that names no
/// version.
pub const DEFAULT_SLUG: &'static str = "12104";

/// Why a search cannot start when the version alias names no version.
pub fn invalid_alias_message(alias: &str) -> (out: String)
    ensures
        out@ == "Invalid version alias: "@ + alias@,
{
    let mut out = String::from_str("Invalid version alias: ");
    out.append(alias);
    out
}

/// The slug that suggestions are fetched for: that of the chosen alias, or
/// of `public` where none was chosen, and 12104 for an alias that names no
/// version.
pub fn suggestion_slug(alias: Option<&str>) -> (slug: &'static str)
    ensures
        slug@ == (match slug_of_lowered(
            lowercase(
                match alias {
                    Some(chosen) => chosen@,
                    None => DEFAULT_ALIAS@,
                },
            ),
        ) {
            Some(found) => found,
            None => DEFAULT_SLUG@,
        }),
{
    let chosen = match alias {
        Some(chosen) => chosen,
        None => DEFAULT_ALIAS,
    };
    match resolve_version(chosen) {
        Some(found) => found,
        None => DEFAULT_SLUG,
    }
}

} // verus!
