//! The map search over the title index of an outside store: the keys and
//! ranges to ask for, what the answers mean, and the texts of the replies.

use crate::decimal::{parse_i32, parsed_i32, signed_decimal, write_signed_decimal};
use crate::bytes::{shorten, shortened};
use crate::text::{
    chars_from, first_chars, first_n, last_occurrence, lowercase, rfind, same_text, texts,
    to_lowercase, trim, trimmed,
};
use crate::types::{tags_or, write_tags, ApiModioMap, ApiModioTag, MAP_TAG};
use vstd::prelude::*;
use vstd::string::{StrSliceExecFns, StringExecFns};

verus! {

/// The key of the sorted set of map titles.
pub const TITLES_KEY: &'static str = "mod_titles:map";

/// What is sent when the store cannot be reached.
pub const NO_CONNECTION: &'static str =
    "Sorry, I couldn't connect to the map database right now. Please try again later.";

/// The longest map name, in bytes, that a suggestion shows whole.
pub const LONGEST_NAME: usize = 80;

/// The number of bytes kept of a name that is too long.
pub const KEPT_OF_NAME: usize = 77;

/// What stands for the tags of a stored map that has none.
pub const NO_TAGS: &'static str = "None";

/// A title as the index holds it: in lowercase, without whitespace at its
/// ends.
pub fn normalize_title_for_redis(title: &str) -> (out: String)
    ensures
        out@ == trimmed(lowercase(title@)),
{
    let lowered = to_lowercase(title);
    trim(lowered.as_str())
}

/// The bounds of the lexical range of all index members that begin with
/// `prefix`: the inclusive lower bound is the prefix, the inclusive upper
/// bound is the prefix followed by the char U+00FF.
pub fn lex_range(prefix: &str) -> (bounds: (String, String))
    ensures
        bounds.0@ == "["@ + prefix@,
        bounds.1@ == "["@ + prefix@ + "\u{ff}"@,
{
    let mut low = String::from_str("[");
    low.append(prefix);
    let mut high = String::from_str("[");
    high.append(prefix);
    high.append("\u{ff}");
    (low, high)
}

/// A member of the title index: a title and the id of its map, which the
/// index holds as `title:id`.
#[derive(Clone, Debug, PartialEq, Eq)]
pub struct Member {
    pub title: String,
    pub id: String,
}

/// The title and the id of a member: what stands before and after its last
/// colon.
pub open spec fn member_parts(member: Seq<char>) -> Option<(Seq<char>, Seq<char>)> {
    match last_occurrence(member, ":"@) {
        Some(at) => Some((member.take(at), member.skip(at + 1))),
        None => None,
    }
}

/// Splits a member of the index at its last colon. `None` for a member
/// without a colon.
pub fn parse_member(member: &str) -> (parsed: Option<Member>)
    ensures
        match member_parts(member@) {
            Some((title, id)) => parsed matches Some(found) && found.title@ == title && found.id@
                == id,
            None => parsed is None,
        },
{
    proof {
        reveal_strlit(":");
    }
    match rfind(member, ":") {
        Some(at) => Some(Member { title: first_chars(member, at), id: chars_from(member, at + 1) }),
        None => None,
    }
}

/// The key under which the map with the id `id` is stored.
pub fn mod_key(id: &str) -> (key: String)
    ensures
        key@ == "mod:"@ + id@,
{
    let mut key = String::from_str("mod:");
    key.append(id);
    key
}

/// The key under which the map with the number `id` is stored.
pub fn mod_key_of(id: i32) -> (key: String)
    ensures
        key@ == "mod:"@ + signed_decimal(id as int),
{
    let mut key = String::from_str("mod:");
    key.append(write_signed_decimal(id as i64).as_str());
    key
}

/// A suggestion: the name, shortened where it takes more than 80 bytes, and
/// the id in brackets.
pub open spec fn suggestion_text(name: Seq<char>, id: Seq<char>) -> Seq<char> {
    shortened(name, 80, 77) + " (ID: "@ + id + ")"@
}

/// Writes a suggestion from a name and an id.
pub fn suggestion(name: &str, id: &str) -> (out: String)
    ensures
        out@ == suggestion_text(name@, id@),
{
    let mut out = shorten(name, LONGEST_NAME, KEPT_OF_NAME);
    out.append(" (ID: ");
    out.append(id);
    out.append(")");
    out
}

/// The name and the id of a stored map.
#[derive(Clone, Debug, PartialEq, Eq)]
pub struct MapName {
    pub name: String,
    pub id: i32,
}

/// The suggestion for the member at `position`: from the stored map where
/// `details` holds one at that position, from the member itself where it
/// does not.
pub open spec fn suggestion_at(
    members: Seq<Member>,
    details: Seq<Option<MapName>>,
    position: int,
) -> Seq<char> {
    if position < details.len() && details[position] is Some {
        suggestion_text(
            details[position]->Some_0.name@,
            signed_decimal(details[position]->Some_0.id as int),
        )
    } else {
        suggestion_text(members[position].title@, members[position].id@)
    }
}

/// The suggestions for the first `limit` members.
pub open spec fn suggestions_for(
    members: Seq<Member>,
    details: Seq<Option<MapName>>,
    limit: nat,
) -> Seq<Seq<char>> {
    first_n(
        Seq::new(members.len(), |position: int| suggestion_at(members, details, position)),
        limit,
    )
}

/// Writes the suggestions for the members that a range query gave, at most
/// `limit` of them and in their order. `details[i]` is the stored map of
/// `members[i]`, where the store has one that can be read; a member without
/// one is suggested by its own title and id.
pub fn map_suggestions(members: &[Member], details: &[Option<MapName>], limit: usize) -> (out: Vec<
    String,
>)
    ensures
        texts(out@) == suggestions_for(members@, details@, limit as nat),
        out@.len() <= limit,
{
    let ghost all = Seq::new(
        members@.len(),
        |position: int| suggestion_at(members@, details@, position),
    );
    let shown: usize = if members.len() > limit {
        limit
    } else {
        members.len()
    };
    let mut out: Vec<String> = Vec::new();
    let mut i: usize = 0;
    while i < shown
        invariant
            i <= shown,
            shown <= members@.len(),
            out@.len() == i,
            all == Seq::new(
                members@.len(),
                |position: int| suggestion_at(members@, details@, position),
            ),
            texts(out@) == all.take(i as int),
        decreases shown - i,
    {
        let text = if i < details.len() {
            match &details[i] {
                Some(stored) => suggestion(
                    stored.name.as_str(),
                    write_signed_decimal(stored.id as i64).as_str(),
                ),
                None => suggestion(members[i].title.as_str(), members[i].id.as_str()),
            }
        } else {
            suggestion(members[i].title.as_str(), members[i].id.as_str())
        };
        out.push(text);
        i += 1;
    }
    out
}

/// The map id that a search term names: the number between the last `(ID: `
/// and the last `)`.
pub open spec fn search_id(search: Seq<char>) -> Option<i32> {
    match (last_occurrence(search, "(ID: "@), last_occurrence(search, ")"@)) {
        (Some(start), Some(end)) => if start + 5 <= end {
            parsed_i32(search.subrange(start + 5, end))
        } else {
            None
        },
        _ => None,
    }
}

/// Reads the map id out of a search term that ends like a suggestion, in
/// `(ID: ` and a number and `)`. `None` where the term names no id.
pub fn parse_search_id(search: &str) -> (id: Option<i32>)
    ensures
        id == search_id(search@),
{
    match rfind(search, "(ID: ") {
        Some(start) => match rfind(search, ")") {
            Some(end) => {
                proof {
                    reveal_strlit("(ID: ");
                }
                if start + 5 <= end {
                    parse_i32(search.substring_char(start + 5, end))
                } else {
                    None
                }
            },
            None => None,
        },
        None => None,
    }
}

/// Whether one of the tags is the map tag.
pub open spec fn has_map_tag(tags: Seq<ApiModioTag>) -> bool {
    exists|i: int| 0 <= i < tags.len() && (#[trigger] tags[i]).name@ == MAP_TAG@
}

/// Whether a stored item has tags, one of which is the map tag.
pub open spec fn tagged_as_map(tags: Option<Vec<ApiModioTag>>) -> bool {
    match tags {
        Some(list) => has_map_tag(list@),
        None => false,
    }
}

fn holds_map_tag(tags: &Vec<ApiModioTag>) -> (found: bool)
    ensures
        found == has_map_tag(tags@),
{
    let mut i: usize = 0;
    while i < tags.len()
        invariant
            i <= tags@.len(),
            forall|j: int| 0 <= j < i ==> (#[trigger] tags@[j]).name@ != MAP_TAG@,
        decreases tags@.len() - i,
    {
        if same_text(tags[i].name.as_str(), MAP_TAG) {
            return true;
        }
        i += 1;
    }
    false
}

/// Whether a stored item is a map: one of its tags is the map tag.
pub fn is_tagged_map(tags: &Option<Vec<ApiModioTag>>) -> (tagged: bool)
    ensures
        tagged == tagged_as_map(*tags),
{
    match tags {
        Some(list) => holds_map_tag(list),
        None => false,
    }
}

/// The id of the one map that a prefix search found: the search must have
/// given exactly one member, and that member must end in a colon and a
/// number.
pub open spec fn single_id(members: Seq<String>) -> Option<i32> {
    if members.len() == 1 {
        match member_parts(members[0]@) {
            Some((_, id)) => parsed_i32(id),
            None => None,
        }
    } else {
        None
    }
}

/// Decides whether a prefix search names one map. No member and several
/// members name none, and neither does a member whose id cannot be read.
pub fn single_match_id(members: &[String]) -> (id: Option<i32>)
    ensures
        id == single_id(members@),
{
    if members.len() == 1 {
        match parse_member(members[0].as_str()) {
            Some(member) => parse_i32(member.id.as_str()),
            None => None,
        }
    } else {
        None
    }
}

/// How a search term is looked up: by the id it names, or by the range of
/// index members that begin with its normalized form.
#[derive(Clone, Debug, PartialEq, Eq)]
pub enum MapLookup {
    /// Fetch the stored map with this id.
    ById(i32),
    /// Ask the title index for the members between these bounds.
    ByPrefix { low: String, high: String },
}

/// Decides how a search term is looked up. A term that names an id, as a
/// suggestion does, is looked up by that id; any other term is looked up by
/// prefix in the title index.
pub fn map_lookup(search: &str) -> (lookup: MapLookup)
    ensures
        match search_id(search@) {
            Some(id) => lookup == MapLookup::ById(id),
            None => lookup matches MapLookup::ByPrefix { low, high } && low@ == "["@ + trimmed(
                lowercase(search@),
            ) && high@ == low@ + "\u{ff}"@,
        },
{
    match parse_search_id(search) {
        Some(id) => MapLookup::ById(id),
        None => {
            let normalized = normalize_title_for_redis(search);
            let (low, high) = lex_range(normalized.as_str());
            MapLookup::ByPrefix { low, high }
        },
    }
}

/// Takes a stored item for the answer only where it is a map.
pub fn accept_stored(stored: Option<ApiModioMap>) -> (found: Option<ApiModioMap>)
    ensures
        found == (match stored {
            Some(map) => if tagged_as_map(map.tags) {
                Some(map)
            } else {
                None
            },
            None => None,
        }),
{
    match stored {
        Some(map) => if is_tagged_map(&map.tags) {
            Some(map)
        } else {
            None
        },
        None => None,
    }
}

/// What is sent when no map answers a search term.
pub fn map_not_found_message(search: &str) -> (out: String)
    ensures
        out@ == "\u{274c} Map not found matching: '"@ + search@
            + "'.\nTip: Use the autocomplete suggestions for best results, or make sure the name is exact."@,
{
    let mut out = String::from_str("\u{274c} Map not found matching: '");
    out.append(search);
    out.append(
        "'.\nTip: Use the autocomplete suggestions for best results, or make sure the name is exact.",
    );
    out
}

/// The card of a stored map. The size stays a number of bytes: how it is
/// shown is the sender's choice.
#[derive(Clone, Debug, PartialEq, Eq)]
pub struct ApiMapCard {
    pub title: String,
    pub url: String,
    pub description: String,
    pub image: String,
    pub author: String,
    pub filesize: Option<i64>,
    pub tags: String,
    pub link: String,
    pub footer: String,
}

/// The download line of a stored map: the words `Download Map` linked to
/// its file, or the words that say there is none. An address that reads
/// `N/A` counts as none.
pub open spec fn link_text(map: ApiModioMap) -> Seq<char> {
    match map.modfile {
        Some(file) => if file.download.binary_url@ == "N/A"@ {
            "No download link"@
        } else {
            "[Download Map]("@ + file.download.binary_url@ + ")"@
        },
        None => "No download link"@,
    }
}

/// The picture of a card: the large thumbnail, or the original logo where
/// there is no thumbnail.
pub open spec fn image_text(map: ApiModioMap) -> Seq<char> {
    match map.logo.thumb_1280x720 {
        Some(thumb) => thumb@,
        None => map.logo.original@,
    }
}

/// The size of a stored map's file in bytes, where it is known.
pub open spec fn size_of(map: ApiModioMap) -> Option<i64> {
    match map.modfile {
        Some(file) => file.filesize,
        None => None,
    }
}

/// The footer of a card: the id, the source and who asked.
pub open spec fn footer_text(id: i32, requester: Seq<char>) -> Seq<char> {
    "ID: "@ + signed_decimal(id as int) + " | Source: mod.io | Requested by "@ + requester
}

fn write_link(map: &ApiModioMap) -> (out: String)
    ensures
        out@ == link_text(*map),
{
    match &map.modfile {
        Some(file) => {
            if same_text(file.download.binary_url.as_str(), "N/A") {
                String::from_str("No download link")
            } else {
                let mut out = String::from_str("[Download Map](");
                out.append(file.download.binary_url.as_str());
                out.append(")");
                out
            }
        },
        None => String::from_str("No download link"),
    }
}

/// Fills the card of a stored map for the user who asked for it.
pub fn api_map_card(map: &ApiModioMap, requester: &str) -> (card: ApiMapCard)
    ensures
        card.title@ == map.name@,
        card.url@ == map.profile_url@,
        card.description@ == map.summary@,
        card.image@ == image_text(*map),
        card.author@ == map.submitted_by.username@,
        card.filesize == size_of(*map),
        card.tags@ == tags_or(map.tags, NO_TAGS@),
        card.link@ == link_text(*map),
        card.footer@ == footer_text(map.id, requester@),
{
    let filesize = match &map.modfile {
        Some(file) => file.filesize,
        None => None,
    };
    let image = match &map.logo.thumb_1280x720 {
        Some(thumb) => thumb.clone(),
        None => map.logo.original.clone(),
    };
    let mut footer = String::from_str("ID: ");
    footer.append(write_signed_decimal(map.id as i64).as_str());
    footer.append(" | Source: mod.io | Requested by ");
    footer.append(requester);
    ApiMapCard {
        title: map.name.clone(),
        url: map.profile_url.clone(),
        description: map.summary.clone(),
        image,
        author: map.submitted_by.username.clone(),
        filesize,
        tags: write_tags(&map.tags, NO_TAGS),
        link: write_link(map),
        footer,
    }
}

} // verus!
