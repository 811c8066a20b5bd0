//! Where the mod list of a version is fetched from.

use crate::text::{lowercase, same_text, to_lowercase};
use vstd::prelude::*;
use vstd::string::StringExecFns;

verus! {

/// The address of the mod lists, up to the version slug.
pub const MODS_ENDPOINT: &'static str = "https://skatebit-api.vercel.app/api/mods/";

/// The slug that a lowercase version alias stands for: `alpha` is 1228,
/// `beta` and `public` are 12104.
pub open spec fn slug_of_lowered(lowered: Seq<char>) -> Option<Seq<char>> {
    if lowered == "alpha"@ {
        Some("1228"@)
    } else if lowered == "beta"@ || lowered == "public"@ {
        Some("12104"@)
    } else {
        None
    }
}

/// The slug of a version alias that is already in lowercase.
pub fn resolve_lowered_version(lowered: &str) -> (slug: Option<&'static str>)
    ensures
        match slug_of_lowered(lowered@) {
            Some(expected) => slug matches Some(found) && found@ == expected,
            None => slug is None,
        },
{
    if same_text(lowered, "alpha") {
        Some("1228")
    } else if same_text(lowered, "beta") || same_text(lowered, "public") {
        Some("12104")
    } else {
        None
    }
}

/// The slug of a version alias, whatever its case; `None` for an alias that
/// names no version.
pub fn resolve_version(alias: &str) -> (slug: Option<&'static str>)
    ensures
        match slug_of_lowered(lowercase(alias@)) {
            Some(expected) => slug matches Some(found) && found@ == expected,
            None => slug is None,
        },
{
    let lowered = to_lowercase(alias);
    resolve_lowered_version(lowered.as_str())
}

/// The address from which the mod list of `version_slug` is fetched.
pub fn mods_url(version_slug: &str) -> (url: String)
    ensures
        url@ == MODS_ENDPOINT@ + version_slug@,
{
    let mut url = String::from_str(MODS_ENDPOINT);
    url.append(version_slug);
    url
}

} // verus!
