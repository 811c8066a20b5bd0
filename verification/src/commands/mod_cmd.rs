//! The mod search: suggestions for a partial title, the parts of a search
//! term, and the texts of the replies.

use crate::mod_cache::ModCache;
use crate::mod_utils::{entry_lines, format_mod_entry};
use crate::query::{exact_hit, find_contains, find_exact, name_contains, targets};
use crate::bytes::{byte_len, byte_prefix, first_bytes, lemma_byte_prefix_fits, shorten, shortened};
use crate::text::{
    chars_from, first_chars, first_n, last_occurrence, lowercase, occurs_nowhere, rfind, texts,
    trim, trimmed,
};
use crate::types::{ModEntry, ModVersionBranch};
use vstd::prelude::*;
use vstd::string::StringExecFns;

verus! {

/// What to tell a user whose search term names no branch.
pub const SEARCH_FORMAT_HINT: &'static str =
    "Please use autocomplete or format search as `Mod Title - Branch` (e.g., `SomeMod - Beta/Public`).";

/// The longest title, in bytes, that a suggestion shows whole.
pub const LONGEST_TITLE: usize = 75;

/// The number of bytes kept of a title that is too long.
pub const KEPT_OF_TITLE: usize = 72;

/// The longest suggestion, in bytes.
pub const LONGEST_SUGGESTION: usize = 100;

/// The suggestion for a mod of a branch: the title, shortened where it
/// takes more than 75 bytes, then ` - ` and the branch, the whole cut to the
/// whole chars of its first 100 bytes.
pub open spec fn suggestion_text(title: Seq<char>, branch: ModVersionBranch) -> Seq<char> {
    byte_prefix(shortened(title, 75, 72) + " - "@ + branch.label(), 100)
}

/// The suggestions for a sequence of mods of one branch.
pub open spec fn suggestions_of(entries: Seq<ModEntry>, branch: ModVersionBranch) -> Seq<
    Seq<char>,
> {
    entries.map_values(|entry: ModEntry| suggestion_text(entry.title@, branch))
}

/// The suggestions for a partial title: the mods of the alpha branch whose
/// titles contain it, then those of the public branch, `limit` in all.
pub open spec fn title_suggestions(
    alpha: Seq<ModEntry>,
    beta_public: Seq<ModEntry>,
    partial: Seq<char>,
    limit: nat,
) -> Seq<Seq<char>> {
    let from_alpha = first_n(alpha.filter(name_contains::<ModEntry>(partial)), limit);
    let from_beta = first_n(
        beta_public.filter(name_contains::<ModEntry>(partial)),
        (limit - from_alpha.len()) as nat,
    );
    suggestions_of(from_alpha, ModVersionBranch::Alpha) + suggestions_of(
        from_beta,
        ModVersionBranch::BetaPublic,
    )
}

/// No suggestion takes more than 100 bytes.
pub proof fn lemma_suggestion_fits(title: Seq<char>, branch: ModVersionBranch)
    ensures
        byte_len(suggestion_text(title, branch)) <= 100,
{
    lemma_byte_prefix_fits(shortened(title, 75, 72) + " - "@ + branch.label(), 100);
}

/// Writes the suggestion for a mod of a branch.
pub fn suggestion(title: &str, branch: ModVersionBranch) -> (out: String)
    ensures
        out@ == suggestion_text(title@, branch),
{
    let mut whole = shorten(title, LONGEST_TITLE, KEPT_OF_TITLE);
    whole.append(" - ");
    whole.append(branch.to_string().as_str());
    String::from_str(first_bytes(whole.as_str(), LONGEST_SUGGESTION))
}

fn push_suggestions(out: &mut Vec<String>, hits: &Vec<&ModEntry>, branch: ModVersionBranch)
    ensures
        texts(final(out)@) == texts(old(out)@) + suggestions_of(targets(hits@), branch),
{
    let ghost before = texts(out@);
    let mut k: usize = 0;
    while k < hits.len()
        invariant
            k <= hits@.len(),
            texts(out@) == before + suggestions_of(targets(hits@).take(k as int), branch),
        decreases hits@.len() - k,
    {
        let ghost so_far = texts(out@);
        let text = suggestion(hits[k].title.as_str(), branch);
        out.push(text);
        proof {
            assert(texts(out@) =~= so_far.push(text@));
        }
        k += 1;
    }
}

/// Suggests mods for a partial title: those of the alpha branch whose titles
/// contain it, whatever the case, then those of the public branch, at most
/// `limit` in all.
pub fn mod_title_suggestions(
    alpha: &[ModEntry],
    beta_public: &[ModEntry],
    partial: &str,
    limit: usize,
) -> (out: Vec<String>)
    ensures
        texts(out@) == title_suggestions(alpha@, beta_public@, partial@, limit as nat),
        out@.len() <= limit,
{
    let mut out: Vec<String> = Vec::new();
    let from_alpha = find_contains(alpha, partial, limit);
    push_suggestions(&mut out, &from_alpha, ModVersionBranch::Alpha);
    let from_beta = find_contains(beta_public, partial, limit - from_alpha.len());
    push_suggestions(&mut out, &from_beta, ModVersionBranch::BetaPublic);
    out
}

/// The title and the branch name of a search term: what stands before and
/// after its last ` - `, each without the whitespace around it.
pub open spec fn search_parts(search: Seq<char>) -> Option<(Seq<char>, Seq<char>)> {
    match last_occurrence(search, " - "@) {
        Some(at) => Some((trimmed(search.take(at)), trimmed(search.skip(at + 3)))),
        None => None,
    }
}

/// Splits a search term at its last ` - ` into a title and a branch name,
/// each without the whitespace around it. `None` where the term holds no
/// ` - `.
pub fn split_search(search: &str) -> (parts: Option<(String, String)>)
    ensures
        match search_parts(search@) {
            Some((title, branch)) => parts matches Some(found) && found.0@ == title && found.1@
                == branch,
            None => parts is None && occurs_nowhere(search@, " - "@),
        },
{
    proof {
        reveal_strlit(" - ");
    }
    match rfind(search, " - ") {
        Some(at) => {
            let head = first_chars(search, at);
            let tail = chars_from(search, at + 3);
            let title = trim(head.as_str());
            let branch = trim(tail.as_str());
            Some((title, branch))
        },
        None => None,
    }
}

/// The reply to a search term whose branch name names no branch.
pub open spec fn invalid_branch_text(name: Seq<char>) -> Seq<char> {
    "Invalid branch name '"@ + name
        + "' found. Use autocomplete or 'Alpha', 'Beta', 'Public', 'Beta/Public'."@
}

/// The reply to a search that no mod of the branch answers.
pub open spec fn not_found_text(title: Seq<char>, branch: ModVersionBranch) -> Seq<char> {
    "\u{274c} No mod found matching '"@ + title + "' for version "@ + branch.label() + "."@
}

/// The reply to a search in a branch whose list is not there yet.
pub open spec fn unavailable_text(branch: ModVersionBranch) -> Seq<char> {
    "Sorry, mod data for version "@ + branch.label() + " is currently unavailable."@
}

/// The footer of a search result.
pub open spec fn footer_text(branch: ModVersionBranch, requester: Seq<char>) -> Seq<char> {
    "Version: "@ + branch.label() + " | Requested by "@ + requester
}

/// Writes the reply to a search term whose branch name names no branch.
pub fn invalid_branch_message(name: &str) -> (out: String)
    ensures
        out@ == invalid_branch_text(name@),
{
    let mut out = String::from_str("Invalid branch name '");
    out.append(name);
    out.append("' found. Use autocomplete or 'Alpha', 'Beta', 'Public', 'Beta/Public'.");
    out
}

/// Writes the reply to a search that no mod of the branch answers.
pub fn not_found_message(title: &str, branch: ModVersionBranch) -> (out: String)
    ensures
        out@ == not_found_text(title@, branch),
{
    let mut out = String::from_str("\u{274c} No mod found matching '");
    out.append(title);
    out.append("' for version ");
    out.append(branch.to_string().as_str());
    out.append(".");
    out
}

/// Writes the reply to a search in a branch whose list is not there yet.
pub fn unavailable_message(branch: ModVersionBranch) -> (out: String)
    ensures
        out@ == unavailable_text(branch),
{
    let mut out = String::from_str("Sorry, mod data for version ");
    out.append(branch.to_string().as_str());
    out.append(" is currently unavailable.");
    out
}

/// Writes the footer of a search result.
pub fn footer(branch: ModVersionBranch, requester: &str) -> (out: String)
    ensures
        out@ == footer_text(branch, requester@),
{
    let mut out = String::from_str("Version: ");
    out.append(branch.to_string().as_str());
    out.append(" | Requested by ");
    out.append(requester);
    out
}

/// What a mod search answers with.
#[derive(Clone, Debug, PartialEq, Eq)]
pub enum SearchReply {
    /// A short text for the asking user alone.
    Notice(String),
    /// A card with a title, a description and a footer.
    Card { title: String, description: String, footer: String },
}

/// A search reply as contracts see it.
pub ghost enum ReplyView {
    Notice(Seq<char>),
    Card { title: Seq<char>, description: Seq<char>, footer: Seq<char> },
}

impl View for SearchReply {
    type V = ReplyView;

    open spec fn view(&self) -> ReplyView {
        match *self {
            SearchReply::Notice(text) => ReplyView::Notice(text@),
            SearchReply::Card { title, description, footer } => ReplyView::Card {
                title: title@,
                description: description@,
                footer: footer@,
            },
        }
    }
}

/// The reply to a search among the mods of `branch` for `title`, where
/// `hit` is what the exact lookup gave: a miss where it gave nothing, else
/// the card of the record it gave.
pub open spec fn reply_for_hit(
    title: Seq<char>,
    branch: ModVersionBranch,
    requester: Seq<char>,
    hit: Option<ModEntry>,
) -> ReplyView {
    match hit {
        None => ReplyView::Notice(not_found_text(title, branch)),
        Some(entry) => ReplyView::Card {
            title: entry.title@,
            description: trimmed(entry_lines(entry)),
            footer: footer_text(branch, requester),
        },
    }
}

/// The reply to a search term. A term without ` - ` gets the format hint and
/// one whose branch name names no branch is told so. A branch whose list was
/// never published is reported as unavailable. Otherwise the exact lookup of
/// the title among the mods of the branch decides: the first mod in snapshot
/// order whose title equals the searched one up to ASCII case is shown, and
/// where there is none the search is a miss.
pub open spec fn reply_to(cache: ModCache, search: Seq<char>, requester: Seq<char>) -> ReplyView {
    match search_parts(search) {
        None => ReplyView::Notice(SEARCH_FORMAT_HINT@),
        Some((title, branch_name)) => match ModVersionBranch::of_lowered(lowercase(branch_name)) {
            None => ReplyView::Notice(invalid_branch_text(branch_name)),
            Some(branch) => if !cache.populated(branch) {
                ReplyView::Notice(unavailable_text(branch))
            } else {
                reply_for_hit(title, branch, requester, exact_hit(cache.snapshot(branch), title))
            },
        },
    }
}

/// Answers a search for `title` among the mods of `branch` from what the
/// exact lookup gave.
pub fn reply_for(title: &str, branch: ModVersionBranch, requester: &str, hit: Option<&ModEntry>) -> (reply:
    SearchReply)
    ensures
        reply@ == reply_for_hit(
            title@,
            branch,
            requester@,
            match hit {
                Some(entry) => Some(*entry),
                None => None,
            },
        ),
{
    match hit {
        None => SearchReply::Notice(not_found_message(title, branch)),
        Some(entry) => SearchReply::Card {
            title: entry.title.clone(),
            description: format_mod_entry(entry),
            footer: footer(branch, requester),
        },
    }
}

/// Answers a search term of the form `Mod Title - Branch` from the cache.
pub fn search_reply(cache: &ModCache, search: &str, requester: &str) -> (reply: SearchReply)
    ensures
        reply@ == reply_to(*cache, search@, requester@),
{
    match split_search(search) {
        None => SearchReply::Notice(String::from_str(SEARCH_FORMAT_HINT)),
        Some((title, branch_name)) => match ModVersionBranch::from_str(branch_name.as_str()) {
            Err(_) => SearchReply::Notice(invalid_branch_message(branch_name.as_str())),
            Ok(branch) => {
                if !cache.is_populated(branch) {
                    SearchReply::Notice(unavailable_message(branch))
                } else {
                    let snapshot = cache.read(branch);
                    let hit = find_exact(snapshot.as_slice(), title.as_str());
                    reply_for(title.as_str(), branch, requester, hit)
                }
            },
        },
    }
}

} // verus!
