//! The map search over the paged map cache: what the card of a found map
//! says.

use crate::types::{tags_or, write_tags, ModioMap};
use vstd::prelude::*;
use vstd::string::StringExecFns;

verus! {

/// What is sent when no map answers a query.
pub const NO_MAP_FOUND: &'static str = "\u{274c} No map found for that query.";

/// What stands for the tags of a map that has none.
pub const NO_TAGS: &'static str = "No tags";

/// The number of milliseconds between two page requests of a refresh.
pub const INTER_PAGE_DELAY_MS: u64 = 100;

/// The bound on the number of pages of one refresh.
pub const MAX_PAGES: u32 = 100;

/// The card of a map. The size stays a number of bytes: how it is shown is
/// the sender's choice.
#[derive(Clone, Debug, PartialEq, Eq)]
pub struct MapCard {
    pub title: String,
    pub description: String,
    pub url: String,
    pub author: String,
    pub filesize: Option<u64>,
    pub tags: String,
    pub link: String,
    pub image: String,
}

/// The address a map is downloaded from, or the words that say there is
/// none.
pub open spec fn download_text(map: ModioMap) -> Seq<char> {
    match map.modfile {
        Some(file) => file.download.binary_url@,
        None => "No download link"@,
    }
}

/// The download line of a card: the words `Download Map` linked to the
/// download text.
pub open spec fn link_text(map: ModioMap) -> Seq<char> {
    "[Download Map]("@ + download_text(map) + ")"@
}

/// The picture of a card: the large thumbnail, or the original logo where
/// there is no thumbnail.
pub open spec fn image_text(map: ModioMap) -> Seq<char> {
    match map.logo.thumb_1280x720 {
        Some(thumb) => thumb@,
        None => map.logo.original@,
    }
}

/// The size of a map's file in bytes, where it is known.
pub open spec fn size_of(map: ModioMap) -> Option<u64> {
    match map.modfile {
        Some(file) => file.filesize,
        None => None,
    }
}

/// Fills the card of a map: its name, summary and page, its author, the size
/// of its file, its tags, its download line and its picture.
pub fn map_card(map: &ModioMap) -> (card: MapCard)
    ensures
        card.title@ == map.name@,
        card.description@ == map.summary@,
        card.url@ == map.profile_url@,
        card.author@ == map.submitted_by.username@,
        card.filesize == size_of(*map),
        card.tags@ == tags_or(map.tags, NO_TAGS@),
        card.link@ == link_text(*map),
        card.image@ == image_text(*map),
{
    let mut link = String::from_str("[Download Map](");
    match &map.modfile {
        Some(file) => link.append(file.download.binary_url.as_str()),
        None => link.append("No download link"),
    }
    link.append(")");
    let filesize = match &map.modfile {
        Some(file) => file.filesize,
        None => None,
    };
    let image = match &map.logo.thumb_1280x720 {
        Some(thumb) => thumb.clone(),
        None => map.logo.original.clone(),
    };
    MapCard {
        title: map.name.clone(),
        description: map.summary.clone(),
        url: map.profile_url.clone(),
        author: map.submitted_by.username.clone(),
        filesize,
        tags: write_tags(&map.tags, NO_TAGS),
        link,
        image,
    }
}

} // verus!
