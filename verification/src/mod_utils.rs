//! Version slugs and the text that describes a mod entry.

use crate::text::{join, join_strings, or_text, text_or, texts, trim, trimmed};
use crate::types::{DownloadLink, ModEntry, ModVersionBranch};
use vstd::prelude::*;
use vstd::string::StringExecFns;

verus! {

/// The slug under which the mod list of a branch is served.
pub open spec fn version_slug(branch: ModVersionBranch) -> Seq<char> {
    match branch {
        ModVersionBranch::Alpha => "1228"@,
        ModVersionBranch::BetaPublic => "12104"@,
    }
}

/// The slug under which the mod list of a branch is served.
pub fn resolve_version_slug(branch: ModVersionBranch) -> (slug: &'static str)
    ensures
        slug@ == version_slug(branch),
{
    match branch {
        ModVersionBranch::Alpha => "1228",
        ModVersionBranch::BetaPublic => "12104",
    }
}

/// The features of an entry, joined by `, `; `N/A` where there are none.
pub open spec fn features_text(features: Option<Vec<String>>) -> Seq<char> {
    match features {
        Some(list) => if list@.len() == 0 {
            "N/A"@
        } else {
            join(texts(list@), ", "@)
        },
        None => "N/A"@,
    }
}

/// The line that shows a note; nothing for a missing or empty note.
pub open spec fn note_line(note: Option<String>) -> Seq<char> {
    match note {
        Some(text) => if text@.len() == 0 {
            Seq::empty()
        } else {
            "**Note:** "@ + text@ + "\n"@
        },
        None => Seq::empty(),
    }
}

/// The line that shows the download links; nothing where there are none.
pub open spec fn downloads_text(links: Option<Vec<DownloadLink>>) -> Seq<char> {
    match links {
        Some(list) => if list@.len() == 0 {
            Seq::empty()
        } else {
            "Links: "@ + DownloadLink::joined_markup(list@)
        },
        None => Seq::empty(),
    }
}

/// The description of an entry before it is trimmed: five labelled lines,
/// then the note line and the links.
pub open spec fn entry_lines(entry: ModEntry) -> Seq<char> {
    "**Author:** "@ + or_text(entry.author, "Unknown"@) + "\n**Mod Version:** "@ + or_text(
        entry.working_version,
        "N/A"@,
    ) + "\n**Game Version:** "@ + or_text(entry.game_version, "N/A"@) + "\n**Keybind:** "@
        + or_text(entry.keybind, "None"@) + "\n**Features:** "@ + features_text(entry.features)
        + "\n"@ + note_line(entry.note) + downloads_text(entry.download_links)
}

fn write_features(features: &Option<Vec<String>>) -> (out: String)
    ensures
        out@ == features_text(*features),
{
    match features {
        Some(list) => if list.len() == 0 {
            String::from_str("N/A")
        } else {
            join_strings(list.as_slice(), ", ")
        },
        None => String::from_str("N/A"),
    }
}

/// Writes the line that shows a note; nothing for a missing or empty note.
pub fn write_note_line(note: &Option<String>) -> (out: String)
    ensures
        out@ == note_line(*note),
{
    match note {
        Some(text) => if text.as_str().is_empty() {
            String::new()
        } else {
            let mut out = String::from_str("**Note:** ");
            out.append(text.as_str());
            out.append("\n");
            out
        },
        None => String::new(),
    }
}

fn write_downloads(links: &Option<Vec<DownloadLink>>) -> (out: String)
    ensures
        out@ == downloads_text(*links),
{
    match links {
        Some(list) => if list.len() == 0 {
            String::new()
        } else {
            let mut out = String::from_str("Links: ");
            out.append(DownloadLink::join_markup(list.as_slice()).as_str());
            out
        },
        None => String::new(),
    }
}

/// Describes a mod entry for display: author, mod version, game version,
/// keybind and features, each with a fallback where the entry says nothing,
/// then the note and the download links where there are any. Whitespace at
/// both ends is removed.
pub fn format_mod_entry(mod_entry: &ModEntry) -> (out: String)
    ensures
        out@ == trimmed(entry_lines(*mod_entry)),
{
    let mut lines = String::from_str("**Author:** ");
    lines.append(text_or(&mod_entry.author, "Unknown"));
    lines.append("\n**Mod Version:** ");
    lines.append(text_or(&mod_entry.working_version, "N/A"));
    lines.append("\n**Game Version:** ");
    lines.append(text_or(&mod_entry.game_version, "N/A"));
    lines.append("\n**Keybind:** ");
    lines.append(text_or(&mod_entry.keybind, "None"));
    lines.append("\n**Features:** ");
    lines.append(write_features(&mod_entry.features).as_str());
    lines.append("\n");
    lines.append(write_note_line(&mod_entry.note).as_str());
    lines.append(write_downloads(&mod_entry.download_links).as_str());
    trim(lines.as_str())
}

} // verus!
