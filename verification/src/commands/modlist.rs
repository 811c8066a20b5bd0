//! The mod list sent page by page: how a list is cut into pages and what
//! each page says.

use crate::decimal::{decimal, write_decimal};
use crate::bytes::{byte_len, lemma_shortened_fits, shorten, shortened};
use crate::text::{join, join_strings, same_text, texts};
use crate::types::ModEntry;
use crate::utils::mod_format::{entry_listing, format_mod_entry};
use vstd::prelude::*;
use vstd::string::StringExecFns;

verus! {

/// The number of mods on a full page.
pub const MAX_MODS_PER_EMBED: usize = 15;

/// The longest description, in bytes, that a page shows whole.
pub const LONGEST_DESCRIPTION: usize = 4096;

/// The number of bytes kept of a description that is too long.
pub const KEPT_OF_DESCRIPTION: usize = 4090;

/// The pause between two pages, in milliseconds.
pub const PAGE_PAUSE_MS: u64 = 600;

/// What stands between two mods of a page.
pub const ENTRY_SEPARATOR: &'static str = "\n\n---\n\n";

/// The name of the list that a selected value stands for.
pub open spec fn label_of(selected: Seq<char>) -> Seq<char> {
    if selected == "alpha"@ {
        "Alpha Version"@
    } else if selected == "beta"@ {
        "Beta Version"@
    } else if selected == "public"@ {
        "Public Version"@
    } else {
        "Selected Version"@
    }
}

/// The name of the list that a selected value stands for.
pub fn list_label(selected: &str) -> (label: &'static str)
    ensures
        label@ == label_of(selected@),
{
    if same_text(selected, "alpha") {
        "Alpha Version"
    } else if same_text(selected, "beta") {
        "Beta Version"
    } else if same_text(selected, "public") {
        "Public Version"
    } else {
        "Selected Version"
    }
}

/// What is shown while the list of a selected value is fetched.
pub fn fetching_message(selected: &str) -> (out: String)
    ensures
        out@ == "\u{23f3} Fetching the "@ + selected@ + " mod list for you..."@,
{
    let mut out = String::from_str("\u{23f3} Fetching the ");
    out.append(selected);
    out.append(" mod list for you...");
    out
}

/// What is sent for a list without mods.
pub fn empty_list_message(label: &str) -> (out: String)
    ensures
        out@ == "\u{2139}\u{fe0f} No mods found for the "@ + label@ + " list."@,
{
    let mut out = String::from_str("\u{2139}\u{fe0f} No mods found for the ");
    out.append(label);
    out.append(" list.");
    out
}

/// What is sent after the last page.
pub fn end_of_list_message(label: &str) -> (out: String)
    ensures
        out@ == "\u{2611}\u{fe0f} End of "@ + label@ + " mod list."@,
{
    let mut out = String::from_str("\u{2611}\u{fe0f} End of ");
    out.append(label);
    out.append(" mod list.");
    out
}

/// One page of a mod list.
#[derive(Clone, Debug, PartialEq, Eq)]
pub struct ListPage {
    pub title: String,
    pub description: String,
    pub footer: String,
    /// How long to wait after sending the page, in milliseconds.
    pub pause_after_ms: u64,
}

/// A page as contracts see it.
pub ghost struct ListPageView {
    pub title: Seq<char>,
    pub description: Seq<char>,
    pub footer: Seq<char>,
    pub pause_after_ms: u64,
}

impl View for ListPage {
    type V = ListPageView;

    open spec fn view(&self) -> ListPageView {
        ListPageView {
            title: self.title@,
            description: self.description@,
            footer: self.footer@,
            pause_after_ms: self.pause_after_ms,
        }
    }
}

/// The number of pages that `total` mods fill, fifteen to a page.
pub open spec fn page_count(total: nat) -> nat {
    (total + 14) / 15
}

/// The mods of page `page`, counted from 0.
pub open spec fn page_mods(mods: Seq<ModEntry>, page: int) -> Seq<ModEntry> {
    mods.subrange(
        15 * page,
        if 15 * page + 15 <= mods.len() {
            15 * page + 15
        } else {
            mods.len() as int
        },
    )
}

/// The listings of the mods of a page with a rule between them; where they
/// take more than 4096 bytes, the whole chars of their first 4090 bytes and
/// three dots.
pub open spec fn page_description(on_page: Seq<ModEntry>) -> Seq<char> {
    shortened(
        join(on_page.map_values(|entry: ModEntry| entry_listing(entry)), ENTRY_SEPARATOR@),
        4096,
        4090,
    )
}

/// No page description takes more than 4096 bytes.
pub proof fn lemma_page_description_fits(on_page: Seq<ModEntry>)
    ensures
        byte_len(page_description(on_page)) <= 4096,
{
    lemma_shortened_fits(
        join(on_page.map_values(|entry: ModEntry| entry_listing(entry)), ENTRY_SEPARATOR@),
        4096,
        4090,
    );
}

/// The title of page `number`, counted from 1, of `pages`.
pub open spec fn page_title(label: Seq<char>, number: nat, pages: nat) -> Seq<char> {
    label + " Mod List (Page "@ + decimal(number) + " of "@ + decimal(pages) + ")"@
}

/// The footer of a page of `count` mods of a list of `total`.
pub open spec fn page_footer(count: nat, total: nat) -> Seq<char> {
    decimal(count) + " mods in this part | Total: "@ + decimal(total)
}

/// Page `page`, counted from 0, of the list `mods` that is named `label`.
/// Every page but the last is followed by a pause.
pub open spec fn list_page(label: Seq<char>, mods: Seq<ModEntry>, page: int) -> ListPageView {
    ListPageView {
        title: page_title(label, (page + 1) as nat, page_count(mods.len())),
        description: page_description(page_mods(mods, page)),
        footer: page_footer(page_mods(mods, page).len(), mods.len()),
        pause_after_ms: if page + 1 < page_count(mods.len()) {
            PAGE_PAUSE_MS
        } else {
            0
        },
    }
}

fn describe_page(on_page: &[ModEntry]) -> (out: String)
    ensures
        out@ == page_description(on_page@),
{
    let mut listings: Vec<String> = Vec::new();
    let mut k: usize = 0;
    while k < on_page.len()
        invariant
            k <= on_page@.len(),
            texts(listings@) == on_page@.take(k as int).map_values(
                |entry: ModEntry| entry_listing(entry),
            ),
        decreases on_page@.len() - k,
    {
        let listing = format_mod_entry(&on_page[k]);
        listings.push(listing);
        proof {
            assert(on_page@.take(k + 1).map_values(|entry: ModEntry| entry_listing(entry))
                =~= on_page@.take(k as int).map_values(
                |entry: ModEntry| entry_listing(entry),
            ).push(entry_listing(on_page@[k as int])));
        }
        k += 1;
    }
    proof {
        assert(on_page@.take(on_page@.len() as int) =~= on_page@);
    }
    let whole = join_strings(listings.as_slice(), ENTRY_SEPARATOR);
    shorten(whole.as_str(), LONGEST_DESCRIPTION, KEPT_OF_DESCRIPTION)
}

fn write_title(label: &str, number: usize, pages: usize) -> (out: String)
    ensures
        out@ == page_title(label@, number as nat, pages as nat),
{
    let mut out = String::from_str(label);
    out.append(" Mod List (Page ");
    out.append(write_decimal(number as u64).as_str());
    out.append(" of ");
    out.append(write_decimal(pages as u64).as_str());
    out.append(")");
    out
}

fn write_footer(count: usize, total: usize) -> (out: String)
    ensures
        out@ == page_footer(count as nat, total as nat),
{
    let mut out = write_decimal(count as u64);
    out.append(" mods in this part | Total: ");
    out.append(write_decimal(total as u64).as_str());
    out
}

/// Cuts a mod list into pages of fifteen, in order. Each page lists its mods
/// under a title that counts the pages and above a footer that counts the
/// mods; a list without mods has no pages.
pub fn list_pages(label: &str, mods: &Vec<ModEntry>) -> (pages: Vec<ListPage>)
    ensures
        pages@.len() == page_count(mods@.len()),
        forall|page: int|
            0 <= page < pages@.len() ==> (#[trigger] pages@[page])@ == list_page(
                label@,
                mods@,
                page,
            ),
{
    let total = mods.len();
    let count: usize = total / MAX_MODS_PER_EMBED + if total % MAX_MODS_PER_EMBED == 0 {
        0
    } else {
        1
    };
    let mut pages: Vec<ListPage> = Vec::new();
    let mut page: usize = 0;
    while page < count
        invariant
            page <= count,
            total == mods@.len(),
            count == page_count(total as nat),
            pages@.len() == page,
            forall|earlier: int|
                0 <= earlier < page ==> (#[trigger] pages@[earlier])@ == list_page(
                    label@,
                    mods@,
                    earlier,
                ),
        decreases count - page,
    {
        let from = page * MAX_MODS_PER_EMBED;
        let to = if total - from >= MAX_MODS_PER_EMBED {
            from + MAX_MODS_PER_EMBED
        } else {
            total
        };
        let on_page = vstd::slice::slice_subrange(mods.as_slice(), from, to);
        let pause_after_ms = if page + 1 < count {
            PAGE_PAUSE_MS
        } else {
            0
        };
        pages.push(
            ListPage {
                title: write_title(label, page + 1, count),
                description: describe_page(on_page),
                footer: write_footer(to - from, total),
                pause_after_ms,
            },
        );
        page += 1;
    }
    pages
}

} // verus!
