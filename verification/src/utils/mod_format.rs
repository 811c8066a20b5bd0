//! The full listing of a mod entry, title included.

use crate::mod_utils::{note_line, write_note_line};
use crate::text::{join, join_strings, or_text, text_or, texts};
use crate::types::{DownloadLink, ModEntry};
use vstd::prelude::*;
use vstd::string::StringExecFns;

verus! {

/// The features of an entry, joined by `, `; nothing where the entry names
/// none.
pub open spec fn features_text(features: Option<Vec<String>>) -> Seq<char> {
    match features {
        Some(list) => join(texts(list@), ", "@),
        None => Seq::empty(),
    }
}

/// The download links as markup, joined by ` | `; nothing where the entry
/// has none.
pub open spec fn downloads_text(links: Option<Vec<DownloadLink>>) -> Seq<char> {
    match links {
        Some(list) => DownloadLink::joined_markup(list@),
        None => Seq::empty(),
    }
}

/// The listing of an entry: six labelled lines, then the note line and the
/// links.
pub open spec fn entry_listing(entry: ModEntry) -> Seq<char> {
    "**Title:** "@ + entry.title@ + "\n**Author:** "@ + or_text(entry.author, "Unknown"@)
        + "\n**Mod Version:** "@ + or_text(entry.working_version, "N/A"@)
        + "\n**Game Version:** "@ + or_text(entry.game_version, "N/A"@) + "\n**Keybind:** "@
        + or_text(entry.keybind, "None"@) + "\n**Features:** "@ + features_text(entry.features)
        + "\n"@ + note_line(entry.note) + downloads_text(entry.download_links)
}

fn write_features(features: &Option<Vec<String>>) -> (out: String)
    ensures
        out@ == features_text(*features),
{
    match features {
        Some(list) => join_strings(list.as_slice(), ", "),
        None => String::new(),
    }
}

fn write_downloads(links: &Option<Vec<DownloadLink>>) -> (out: String)
    ensures
        out@ == downloads_text(*links),
{
    match links {
        Some(list) => DownloadLink::join_markup(list.as_slice()),
        None => String::new(),
    }
}

/// Lists a mod entry for display: title, author, mod version, game version,
/// keybind and features, with a fallback where the entry names no author,
/// version or keybind, then the note and the download links where there are
/// any.
pub fn format_mod_entry(mod_entry: &ModEntry) -> (out: String)
    ensures
        out@ == entry_listing(*mod_entry),
{
    let mut out = String::from_str("**Title:** ");
    out.append(mod_entry.title.as_str());
    out.append("\n**Author:** ");
    out.append(text_or(&mod_entry.author, "Unknown"));
    out.append("\n**Mod Version:** ");
    out.append(text_or(&mod_entry.working_version, "N/A"));
    out.append("\n**Game Version:** ");
    out.append(text_or(&mod_entry.game_version, "N/A"));
    out.append("\n**Keybind:** ");
    out.append(text_or(&mod_entry.keybind, "None"));
    out.append("\n**Features:** ");
    out.append(write_features(&mod_entry.features).as_str());
    out.append("\n");
    out.append(write_note_line(&mod_entry.note).as_str());
    out.append(write_downloads(&mod_entry.download_links).as_str());
    out
}

} // verus!
