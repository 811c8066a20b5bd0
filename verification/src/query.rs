//! Read-side lookups over a snapshot: exact match by name and substring
//! search with a cap on the number of results. Both only read the snapshot
//! they are given.

use crate::record::Record;
use crate::text::{
    ascii_case_eq, contains_ignoring_case, first_n, is_substring,
    lowercase, chars_of, contains_chars, eq_chars_ignore_ascii_case, texts, to_lowercase,
};
use vstd::prelude::*;
use vstd::string::StringExecFns;

verus! {

/// The cap on interactive suggestion lists.
pub const SUGGESTION_LIMIT: usize = 25;

/// The test that a record's name contains `needle` when both are in
/// lowercase.
pub open spec fn name_contains<R: Record>(needle: Seq<char>) -> spec_fn(R) -> bool {
    |record: R| contains_ignoring_case(record.name(), needle)
}

/// The test that the text at a position of `names` contains `needle`.
pub open spec fn holds_at(names: Seq<Seq<char>>, needle: Seq<char>) -> spec_fn(int) -> bool {
    |i: int| is_substring(needle, names[i])
}

/// The positions `0, 1, .. len - 1`.
pub open spec fn positions(len: nat) -> Seq<int> {
    Seq::new(len, |i: int| i)
}

/// The positions of the texts that contain `needle`, in increasing order.
pub open spec fn containing_positions(names: Seq<Seq<char>>, needle: Seq<char>) -> Seq<int> {
    positions(names.len()).filter(holds_at(names, needle))
}

/// The values that a sequence of references points to.
pub open spec fn targets<R>(refs: Seq<&R>) -> Seq<R> {
    refs.map_values(|r: &R| *r)
}

/// The record at `at` is the first in snapshot order whose name equals
/// `key` up to ASCII case.
pub open spec fn is_first_exact_at<R: Record>(snapshot: Seq<R>, key: Seq<char>, at: int) -> bool {
    &&& 0 <= at < snapshot.len()
    &&& ascii_case_eq(snapshot[at].name(), key)
    &&& forall|j: int| 0 <= j < at ==> !ascii_case_eq(#[trigger] snapshot[j].name(), key)
}

/// What an exact lookup of `key` in `snapshot` gives: the first record in
/// snapshot order whose name equals `key` up to ASCII case, or nothing when
/// there is no such record.
pub open spec fn exact_hit<R: Record>(snapshot: Seq<R>, key: Seq<char>) -> Option<R> {
    if exists|at: int| is_first_exact_at(snapshot, key, at) {
        Some(snapshot[choose|at: int| is_first_exact_at(snapshot, key, at)])
    } else {
        None
    }
}

/// `hit` is what an exact lookup of `key` in `snapshot` gives.
pub open spec fn is_exact_hit<R: Record>(snapshot: Seq<R>, key: Seq<char>, hit: Option<R>) -> bool {
    match hit {
        Some(record) => exists|at: int|
            #[trigger] is_first_exact_at(snapshot, key, at) && snapshot[at] == record,
        None => forall|i: int|
            0 <= i < snapshot.len() ==> !ascii_case_eq(#[trigger] snapshot[i].name(), key),
    }
}

/// Where several records share a name, the first in snapshot order is the
/// one that an exact lookup gives.
pub proof fn lemma_exact_hit_is_first<R: Record>(snapshot: Seq<R>, key: Seq<char>, at: int)
    requires
        is_first_exact_at(snapshot, key, at),
    ensures
        exact_hit(snapshot, key) == Some(snapshot[at]),
{
    let chosen = choose|other: int| is_first_exact_at(snapshot, key, other);
    assert(is_first_exact_at(snapshot, key, chosen));
    if chosen < at {
        assert(!ascii_case_eq(snapshot[chosen].name(), key));
    }
    if at < chosen {
        assert(!ascii_case_eq(snapshot[at].name(), key));
    }
}

/// Looks a record up by its name, ignoring ASCII case. Where several records
/// share the name, the first in snapshot order is the one found. A cold or
/// empty snapshot gives `None`.
pub fn find_exact<'a, R: Record>(snapshot: &'a [R], key: &str) -> (hit: Option<&'a R>)
    ensures
        match exact_hit(snapshot@, key@) {
            Some(record) => hit matches Some(found) && *found == record,
            None => hit is None,
        },
        is_exact_hit(
            snapshot@,
            key@,
            match hit {
                Some(record) => Some(*record),
                None => None,
            },
        ),
{
    let key_chars = chars_of(key);
    let mut i: usize = 0;
    while i < snapshot.len()
        invariant
            i <= snapshot@.len(),
            key_chars@ == key@,
            forall|j: int| 0 <= j < i ==> !ascii_case_eq(#[trigger] snapshot@[j].name(), key@),
        decreases snapshot@.len() - i,
    {
        let name_chars = chars_of(snapshot[i].display_name());
        if eq_chars_ignore_ascii_case(&name_chars, &key_chars) {
            proof {
                assert(is_first_exact_at(snapshot@, key@, i as int));
                lemma_exact_hit_is_first(snapshot@, key@, i as int);
            }
            return Some(&snapshot[i]);
        }
        i += 1;
    }
    proof {
        assert forall|at: int| !is_first_exact_at(snapshot@, key@, at) by {
            if 0 <= at < snapshot@.len() {
                assert(!ascii_case_eq(snapshot@[at].name(), key@));
            }
        }
    }
    None
}

/// A sequence of indices as mathematical integers.
pub open spec fn as_ints(indices: Seq<usize>) -> Seq<int> {
    indices.map_values(|i: usize| i as int)
}

/// The record at a position of `snapshot`.
pub open spec fn record_at<R>(snapshot: Seq<R>) -> spec_fn(int) -> R {
    |i: int| snapshot[i]
}

proof fn lemma_positions_step(names: Seq<Seq<char>>, needle: Seq<char>, n: nat)
    ensures
        positions(n + 1).filter(holds_at(names, needle)) == if is_substring(
            needle,
            names[n as int],
        ) {
            positions(n).filter(holds_at(names, needle)).push(n as int)
        } else {
            positions(n).filter(holds_at(names, needle))
        },
{
    reveal(Seq::filter);
    assert(positions(n + 1).drop_last() =~= positions(n));
}

proof fn lemma_positions_prefix(names: Seq<Seq<char>>, needle: Seq<char>, n: nat, len: nat)
    requires
        n <= len,
    ensures
        positions(len).filter(holds_at(names, needle)) == positions(n).filter(
            holds_at(names, needle),
        ) + positions(len).skip(n as int).filter(holds_at(names, needle)),
{
    let all = positions(len);
    assert(all.take(n as int) =~= positions(n));
    assert(all =~= all.take(n as int) + all.skip(n as int));
}

/// Picks, among texts that are already in lowercase, the positions of those
/// that contain the needle, in increasing order and at most `limit` of them.
pub fn select_containing(lowered_names: &[String], lowered_needle: &str, limit: usize) -> (picked:
    Vec<usize>)
    ensures
        as_ints(picked@) == first_n(
            containing_positions(texts(lowered_names@), lowered_needle@),
            limit as nat,
        ),
        forall|k: int| 0 <= k < picked@.len() ==> #[trigger] picked@[k] < lowered_names@.len(),
{
    let ghost names = texts(lowered_names@);
    let ghost pred = holds_at(names, lowered_needle@);
    let needle_chars = chars_of(lowered_needle);
    let mut picked: Vec<usize> = Vec::new();
    let mut i: usize = 0;
    while i < lowered_names.len() && picked.len() < limit
        invariant
            i <= lowered_names@.len(),
            picked@.len() <= limit,
            names == texts(lowered_names@),
            pred == holds_at(names, lowered_needle@),
            needle_chars@ == lowered_needle@,
            as_ints(picked@) == positions(i as nat).filter(pred),
            forall|k: int| 0 <= k < picked@.len() ==> #[trigger] picked@[k] < lowered_names@.len(),
        decreases lowered_names@.len() - i,
    {
        let name_chars = chars_of(lowered_names[i].as_str());
        let found = contains_chars(&name_chars, &needle_chars);
        proof {
            lemma_positions_step(names, lowered_needle@, i as nat);
            assert(names[i as int] == lowered_names@[i as int]@);
            assert(as_ints(picked@.push(i)) =~= as_ints(picked@).push(i as int));
        }
        if found {
            picked.push(i);
        }
        i += 1;
    }
    proof {
        let all = containing_positions(names, lowered_needle@);
        let rest = positions(lowered_names@.len()).skip(i as int).filter(pred);
        lemma_positions_prefix(names, lowered_needle@, i as nat, lowered_names@.len());
        assert(all == as_ints(picked@) + rest);
        if i == lowered_names@.len() {
            reveal(Seq::filter);
            assert(rest =~= Seq::<int>::empty());
        }
        assert(as_ints(picked@) =~= first_n(all, limit as nat));
    }
    picked
}

/// `lowered` holds the lowercase name of each record of `snapshot`.
pub open spec fn are_lowered_names<R: Record>(snapshot: Seq<R>, lowered: Seq<Seq<char>>) -> bool {
    &&& lowered.len() == snapshot.len()
    &&& forall|i: int|
        0 <= i < snapshot.len() ==> #[trigger] lowered[i] == lowercase(snapshot[i].name())
}

proof fn lemma_matching_prefix<R: Record>(
    snapshot: Seq<R>,
    needle: Seq<char>,
    lowered: Seq<Seq<char>>,
    n: nat,
)
    requires
        are_lowered_names(snapshot, lowered),
        n <= snapshot.len(),
    ensures
        snapshot.take(n as int).filter(name_contains::<R>(needle)) == positions(n).filter(
            holds_at(lowered, lowercase(needle)),
        ).map_values(record_at(snapshot)),
    decreases n,
{
    reveal(Seq::filter);
    if n > 0 {
        let m = (n - 1) as nat;
        lemma_matching_prefix(snapshot, needle, lowered, m);
        lemma_positions_step(lowered, lowercase(needle), m);
        assert(snapshot.take(n as int).drop_last() =~= snapshot.take(m as int));
    }
}

/// The records whose names contain the needle are the records at the
/// positions where the lowercase names contain the lowercase needle.
pub proof fn lemma_matching_by_positions<R: Record>(
    snapshot: Seq<R>,
    needle: Seq<char>,
    lowered: Seq<Seq<char>>,
)
    requires
        are_lowered_names(snapshot, lowered),
    ensures
        snapshot.filter(name_contains::<R>(needle)) == containing_positions(
            lowered,
            lowercase(needle),
        ).map_values(record_at(snapshot)),
{
    lemma_matching_prefix(snapshot, needle, lowered, snapshot.len());
    assert(snapshot.take(snapshot.len() as int) =~= snapshot);
}

/// Finds the records whose names contain `needle`, both taken in lowercase:
/// the first `limit` of them, in snapshot order. A cold or empty snapshot
/// gives no records.
pub fn find_contains<'a, R: Record>(snapshot: &'a [R], needle: &str, limit: usize) -> (hits: Vec<
    &'a R,
>)
    ensures
        targets(hits@) == first_n(snapshot@.filter(name_contains::<R>(needle@)), limit as nat),
        hits@.len() <= limit,
        forall|k: int|
            0 <= k < hits@.len() ==> contains_ignoring_case((#[trigger] hits@[k]).name(), needle@),
{
    let lowered_needle = to_lowercase(needle);
    let mut lowered_names: Vec<String> = Vec::new();
    let mut i: usize = 0;
    while i < snapshot.len()
        invariant
            i <= snapshot@.len(),
            lowered_names@.len() == i,
            forall|j: int|
                0 <= j < i ==> (#[trigger] lowered_names@[j])@ == lowercase(snapshot@[j].name()),
        decreases snapshot@.len() - i,
    {
        lowered_names.push(to_lowercase(snapshot[i].display_name()));
        i += 1;
    }
    let picked = select_containing(lowered_names.as_slice(), lowered_needle.as_str(), limit);
    let ghost lowered = texts(lowered_names@);
    let ghost all = containing_positions(lowered, lowercase(needle@));
    let ghost matches = snapshot@.filter(name_contains::<R>(needle@));
    proof {
        lemma_matching_by_positions(snapshot@, needle@, lowered);
        assert(as_ints(picked@).len() == picked@.len());
    }
    let mut hits: Vec<&'a R> = Vec::new();
    let mut k: usize = 0;
    while k < picked.len()
        invariant
            k <= picked@.len(),
            hits@.len() == k,
            as_ints(picked@) == first_n(all, limit as nat),
            as_ints(picked@).len() == picked@.len(),
            matches == all.map_values(record_at(snapshot@)),
            all == containing_positions(lowered, lowercase(needle@)),
            are_lowered_names(snapshot@, lowered),
            forall|j: int| 0 <= j < picked@.len() ==> #[trigger] picked@[j] < snapshot@.len(),
            forall|j: int| 0 <= j < k ==> *(#[trigger] hits@[j]) == matches[j],
            forall|j: int|
                0 <= j < k ==> contains_ignoring_case((#[trigger] hits@[j]).name(), needle@),
        decreases picked@.len() - k,
    {
        let at = picked[k];
        proof {
            assert(first_n(all, limit as nat)[k as int] == all[k as int]);
        }
        hits.push(&snapshot[at]);
        k += 1;
    }
    hits
}

/// The first record whose name contains `needle`, both taken in lowercase,
/// if there is one.
pub open spec fn first_containing<R: Record>(snapshot: Seq<R>, needle: Seq<char>) -> Option<R> {
    let matches = snapshot.filter(name_contains::<R>(needle));
    if matches.len() == 0 {
        None
    } else {
        Some(matches[0])
    }
}

/// Finds the first record in snapshot order whose name contains `needle`,
/// both taken in lowercase.
pub fn find_first_contains<'a, R: Record>(snapshot: &'a [R], needle: &str) -> (hit: Option<&'a R>)
    ensures
        match first_containing(snapshot@, needle@) {
            Some(record) => hit matches Some(found) && *found == record,
            None => hit is None,
        },
{
    let hits = find_contains(snapshot, needle, 1);
    assert(targets(hits@).len() == hits@.len());
    if hits.len() == 0 {
        None
    } else {
        assert(targets(hits@)[0] == *hits@[0]);
        Some(hits[0])
    }
}

/// The names of the first `limit` records whose names contain `needle`, both
/// taken in lowercase.
pub open spec fn names_containing<R: Record>(snapshot: Seq<R>, needle: Seq<char>, limit: nat) -> Seq<
    Seq<char>,
> {
    first_n(snapshot.filter(name_contains::<R>(needle)), limit).map_values(
        |record: R| record.name(),
    )
}

/// Lists the names of the records whose names contain `needle`, both taken
/// in lowercase: the first `limit` of them, in snapshot order.
pub fn name_suggestions<R: Record>(snapshot: &[R], needle: &str, limit: usize) -> (names: Vec<
    String,
>)
    ensures
        texts(names@) == names_containing(snapshot@, needle@, limit as nat),
        names@.len() <= limit,
{
    let hits = find_contains(snapshot, needle, limit);
    let ghost found = targets(hits@);
    let mut names: Vec<String> = Vec::new();
    let mut k: usize = 0;
    while k < hits.len()
        invariant
            k <= hits@.len(),
            found == targets(hits@),
            texts(names@) == found.take(k as int).map_values(|record: R| record.name()),
        decreases hits@.len() - k,
    {
        let name = String::from_str(hits[k].display_name());
        names.push(name);
        proof {
            assert(found.take(k + 1).map_values(|record: R| record.name()) =~= found.take(
                k as int,
            ).map_values(|record: R| record.name()).push(found[k as int].name()));
        }
        k += 1;
    }
    names
}

/// Cuts a list of suggestions down to its first `limit`.
pub fn cap_suggestions<T>(suggestions: Vec<T>, limit: usize) -> (capped: Vec<T>)
    ensures
        capped@ == first_n(suggestions@, limit as nat),
{
    let mut capped = suggestions;
    if limit < capped.len() {
        capped.truncate(limit);
    }
    capped
}

/// An exact lookup has one answer: against the same snapshot and key, any
/// two results are the same.
pub proof fn lemma_find_exact_repeatable<R: Record>(
    snapshot: Seq<R>,
    key: Seq<char>,
    first: Option<R>,
    second: Option<R>,
)
    requires
        is_exact_hit(snapshot, key, first),
        is_exact_hit(snapshot, key, second),
    ensures
        first == second,
{
}

} // verus!
