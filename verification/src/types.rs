//! The records that the cache holds and the version branches they belong to.

use crate::text::{join, join_strings, lowercase, same_text, texts, to_lowercase};
use vstd::prelude::*;
use vstd::string::StringExecFns;

verus! {

/// Accent colour of the bot's embeds.
pub const BOT_EMBED_COLOR: u32 = 0x1eaeef;

/// Tag that marks a mod.io item as a map.
pub const MAP_TAG: &'static str = "Map";

/// Tag that marks a mod.io item as a script mod.
pub const SCRIPT_MOD_TAG: &'static str = "Script";

/// The game branch that a mod list belongs to.
#[derive(Debug, Clone, Copy, PartialEq, Eq, Structural)]
pub enum ModVersionBranch {
    /// The alpha branch.
    Alpha,
    /// The beta branch, which is also the public one.
    BetaPublic,
}

impl ModVersionBranch {
    /// The branch that a lowercase alias names, if it names one.
    pub open spec fn of_lowered(lowered: Seq<char>) -> Option<ModVersionBranch> {
        if lowered == "alpha"@ {
            Some(ModVersionBranch::Alpha)
        } else if lowered == "beta"@ || lowered == "public"@ || lowered == "beta/public"@ {
            Some(ModVersionBranch::BetaPublic)
        } else {
            None
        }
    }

    /// The name under which the branch is shown.
    pub open spec fn label(self) -> Seq<char> {
        match self {
            ModVersionBranch::Alpha => "Alpha"@,
            ModVersionBranch::BetaPublic => "Beta/Public"@,
        }
    }

    /// The message that rejects `s` as a branch name.
    pub open spec fn unknown_branch_message(s: Seq<char>) -> Seq<char> {
        "Unknown version branch: '"@ + s + "'. Use Alpha or Beta/Public."@
    }

    /// Reads a branch from an alias that is already in lowercase.
    pub fn from_lowered(lowered: &str) -> (branch: Option<ModVersionBranch>)
        ensures
            branch == Self::of_lowered(lowered@),
    {
        if same_text(lowered, "alpha") {
            Some(ModVersionBranch::Alpha)
        } else if same_text(lowered, "beta") || same_text(lowered, "public") || same_text(
            lowered,
            "beta/public",
        ) {
            Some(ModVersionBranch::BetaPublic)
        } else {
            None
        }
    }

    /// Reads a branch from an alias, whatever its case: `alpha` is the alpha
    /// branch, `beta`, `public` and `beta/public` are the public one, and
    /// anything else is rejected with a message that quotes the alias.
    pub fn from_str(s: &str) -> (parsed: Result<ModVersionBranch, String>)
        ensures
            match Self::of_lowered(lowercase(s@)) {
                Some(branch) => parsed == Ok::<ModVersionBranch, String>(branch),
                None => parsed is Err && parsed->Err_0@ == Self::unknown_branch_message(s@),
            },
    {
        let lowered = to_lowercase(s);
        match Self::from_lowered(lowered.as_str()) {
            Some(branch) => Ok(branch),
            None => {
                let mut message = String::from_str("Unknown version branch: '");
                message.append(s);
                message.append("'. Use Alpha or Beta/Public.");
                Err(message)
            },
        }
    }

    /// The name under which the branch is shown.
    pub fn to_string(&self) -> (shown: String)
        ensures
            shown@ == self.label(),
    {
        match self {
            ModVersionBranch::Alpha => String::from_str("Alpha"),
            ModVersionBranch::BetaPublic => String::from_str("Beta/Public"),
        }
    }
}

/// One entry of a working-mods list. Only the title is always there.
#[derive(Clone, Debug, PartialEq, Eq)]
pub struct ModEntry {
    pub title: String,
    pub author: Option<String>,
    pub working_version: Option<String>,
    pub game_version: Option<String>,
    pub keybind: Option<String>,
    pub features: Option<Vec<String>>,
    pub note: Option<String>,
    pub download_links: Option<Vec<DownloadLink>>,
}

/// A labelled download address of a mod.
#[derive(Clone, Debug, PartialEq, Eq)]
pub struct DownloadLink {
    pub url: String,
    pub label: String,
}

impl DownloadLink {
    /// The link as inline markup: the label in square brackets, then the
    /// address in round ones.
    pub open spec fn markup(self) -> Seq<char> {
        "["@ + self.label@ + "]("@ + self.url@ + ")"@
    }

    /// The markup of each link, joined by ` | `.
    pub open spec fn joined_markup(links: Seq<DownloadLink>) -> Seq<char> {
        join(links.map_values(|link: DownloadLink| link.markup()), " | "@)
    }

    /// Writes the link as inline markup.
    pub fn to_markup(&self) -> (out: String)
        ensures
            out@ == self.markup(),
    {
        let mut out = String::from_str("[");
        out.append(self.label.as_str());
        out.append("](");
        out.append(self.url.as_str());
        out.append(")");
        out
    }

    /// Writes the links as inline markup, joined by ` | `.
    pub fn join_markup(links: &[DownloadLink]) -> (out: String)
        ensures
            out@ == Self::joined_markup(links@),
    {
        let mut parts: Vec<String> = Vec::new();
        let mut i: usize = 0;
        while i < links.len()
            invariant
                i <= links@.len(),
                texts(parts@) == links@.take(i as int).map_values(
                    |link: DownloadLink| link.markup(),
                ),
            decreases links@.len() - i,
        {
            let part = links[i].to_markup();
            parts.push(part);
            proof {
                assert(links@.take(i + 1).map_values(|link: DownloadLink| link.markup())
                    =~= links@.take(i as int).map_values(
                    |link: DownloadLink| link.markup(),
                ).push(links@[i as int].markup()));
            }
            i += 1;
        }
        proof {
            assert(links@.take(links@.len() as int) =~= links@);
        }
        join_strings(parts.as_slice(), " | ")
    }
}

/// Who submitted a stored map.
#[derive(Debug, Clone, PartialEq, Eq)]
pub struct ApiModioUser {
    pub id: i32,
    pub username: String,
    pub profile_url: Option<String>,
}

/// The logo of a stored map and its thumbnails.
#[derive(Debug, Clone, PartialEq, Eq)]
pub struct ApiModioLogo {
    pub filename: String,
    pub original: String,
    pub thumb_320x180: Option<String>,
    pub thumb_640x360: Option<String>,
    pub thumb_1280x720: Option<String>,
}

/// Where the file of a stored map is downloaded from, and until when.
#[derive(Debug, Clone, PartialEq, Eq)]
pub struct ApiModioDownload {
    pub binary_url: String,
    pub date_expires: i64,
}

/// The file of a stored map.
#[derive(Debug, Clone, PartialEq, Eq)]
pub struct ApiModioModfile {
    pub id: i32,
    pub filename: Option<String>,
    pub version: Option<String>,
    pub filesize: Option<i64>,
    pub download: ApiModioDownload,
}

/// A tag of a stored map.
#[derive(Debug, Clone, PartialEq, Eq)]
pub struct ApiModioTag {
    pub name: String,
}

/// The download and rating counts of a stored map.
#[derive(Debug, Clone, PartialEq, Eq)]
pub struct ApiModioStats {
    pub downloads_total: i32,
    pub subscribers_total: i32,
    pub ratings_positive: i32,
    pub ratings_negative: i32,
    pub ratings_display_text: String,
}

/// A picture in the gallery of a stored map.
#[derive(Debug, Clone, PartialEq, Eq)]
pub struct ApiModioImage {
    pub filename: String,
    pub original: String,
    pub thumb_320x180: Option<String>,
}

/// The gallery of a stored map.
#[derive(Debug, Clone, PartialEq, Eq)]
pub struct ApiModioMedia {
    pub images: Option<Vec<ApiModioImage>>,
}

/// A map as the self-hosted API serves it, with its stable mod.io id.
#[derive(Debug, Clone, PartialEq, Eq)]
pub struct ApiModioMap {
    pub id: i32,
    pub game_id: i32,
    pub name: String,
    pub name_id: String,
    pub summary: String,
    pub description: String,
    pub profile_url: String,
    pub submitted_by: ApiModioUser,
    pub date_added: i64,
    pub date_updated: i64,
    pub date_live: i64,
    pub logo: ApiModioLogo,
    pub modfile: Option<ApiModioModfile>,
    pub tags: Option<Vec<ApiModioTag>>,
    pub stats: ApiModioStats,
    pub media: Option<ApiModioMedia>,
}

/// A map as the paged cache files hold it.
#[derive(Debug, Clone, PartialEq, Eq)]
pub struct ModioMap {
    pub name: String,
    pub summary: String,
    pub profile_url: String,
    pub logo: ModioLogo,
    pub submitted_by: ModioUser,
    pub modfile: Option<ModioModfile>,
    pub tags: Option<Vec<ModioTag>>,
}

/// The logo of a paged map.
#[derive(Debug, Clone, PartialEq, Eq)]
pub struct ModioLogo {
    pub original: String,
    pub thumb_1280x720: Option<String>,
}

/// Who submitted a paged map.
#[derive(Debug, Clone, PartialEq, Eq)]
pub struct ModioUser {
    pub username: String,
}

/// The file of a paged map.
#[derive(Debug, Clone, PartialEq, Eq)]
pub struct ModioModfile {
    pub download: ModioDownload,
    pub filesize: Option<u64>,
}

/// Where the file of a paged map is downloaded from.
#[derive(Debug, Clone, PartialEq, Eq)]
pub struct ModioDownload {
    pub binary_url: String,
}

/// A tag of a paged map.
#[derive(Debug, Clone, PartialEq, Eq)]
pub struct ModioTag {
    pub name: String,
}

/// A tag with a name.
pub trait Tag {
    /// The name of the tag, as a sequence of chars.
    spec fn tag_name(&self) -> Seq<char>;

    /// The name of the tag.
    fn name_text(&self) -> (name: &str)
        ensures
            name@ == self.tag_name(),
    ;
}

impl Tag for ModioTag {
    open spec fn tag_name(&self) -> Seq<char> {
        self.name@
    }

    fn name_text(&self) -> (name: &str) {
        self.name.as_str()
    }
}

impl Tag for ApiModioTag {
    open spec fn tag_name(&self) -> Seq<char> {
        self.name@
    }

    fn name_text(&self) -> (name: &str) {
        self.name.as_str()
    }
}

/// The names of a sequence of tags, in order.
pub open spec fn tag_names<T: Tag>(tags: Seq<T>) -> Seq<Seq<char>> {
    tags.map_values(|tag: T| tag.tag_name())
}

/// The names of the tags, joined by `, `; `fallback` where there are none.
pub open spec fn tags_or<T: Tag>(tags: Option<Vec<T>>, fallback: Seq<char>) -> Seq<char> {
    match tags {
        Some(list) => if list@.len() == 0 {
            fallback
        } else {
            join(tag_names(list@), ", "@)
        },
        None => fallback,
    }
}

/// Writes the names of the tags, joined by `, `; `fallback` where there are
/// none.
pub fn write_tags<T: Tag>(tags: &Option<Vec<T>>, fallback: &str) -> (out: String)
    ensures
        out@ == tags_or(*tags, fallback@),
{
    match tags {
        Some(list) => {
            if list.len() == 0 {
                String::from_str(fallback)
            } else {
                let mut names: Vec<String> = Vec::new();
                let mut k: usize = 0;
                while k < list.len()
                    invariant
                        k <= list@.len(),
                        texts(names@) == tag_names(list@.take(k as int)),
                    decreases list@.len() - k,
                {
                    let ghost so_far = texts(names@);
                    let name = String::from_str(list[k].name_text());
                    names.push(name);
                    proof {
                        assert(texts(names@) =~= so_far.push(name@));
                        assert(tag_names(list@.take(k + 1)) =~= tag_names(
                            list@.take(k as int),
                        ).push(list@[k as int].tag_name()));
                    }
                    k += 1;
                }
                proof {
                    assert(list@.take(list@.len() as int) =~= list@);
                }
                join_strings(names.as_slice(), ", ")
            }
        },
        None => String::from_str(fallback),
    }
}

} // verus!
