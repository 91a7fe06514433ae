//! The format registry: from a chunk's file name to its format tag.

use crate::binary_type::{catalog, NuccBinaryType};
use vstd::prelude::*;

verus! {

/// What a search of `text` for the regular expression `pattern` gives: `None` where the
/// pattern is no regular expression that the `regex` crate compiles; else whether some
/// part of `text` matches it, letters compared without regard to case if `fold_case`.
pub uninterp spec fn regex_search(pattern: Seq<char>, fold_case: bool, text: Seq<char>) -> Option<
    bool,
>;

/// Calls `regex::RegexBuilder::new(pattern).case_insensitive(fold_case).build()` and, on
/// the regular expression that it gives, `Regex::is_match(text)`.
///
/// Believed, not proved: the outcome depends on the three arguments alone, so it has
/// the name `regex_search`. Nothing is claimed of which texts match.
#[verifier::external_body]
fn search(pattern: &str, fold_case: bool, text: &str) -> (found: Option<bool>)
    ensures
        found == regex_search(pattern@, fold_case, text@),
{
    match regex::RegexBuilder::new(pattern).case_insensitive(fold_case).build() {
        Ok(expression) => Some(expression.is_match(text)),
        Err(_) => None,
    }
}

/// True when the pattern of `tag` is found in `filename`.
pub open spec fn tag_matches(tag: NuccBinaryType, filename: Seq<char>) -> bool {
    regex_search(tag.pattern(), tag.folds_case(), filename) == Some(true)
}

/// The first position from `from` on at which `hits` holds `true`.
pub open spec fn first_hit(hits: Seq<bool>, from: nat) -> Option<int>
    decreases hits.len() - from,
{
    if from >= hits.len() {
        None
    } else if hits[from as int] {
        Some(from as int)
    } else {
        first_hit(hits, from + 1)
    }
}

/// The tag that the answers of the catalog's patterns lead to: `hits[i]` says whether
/// the pattern of the catalog's entry `i` matched, and the first entry that matched
/// wins.
pub open spec fn pick(hits: Seq<bool>) -> Option<NuccBinaryType> {
    match first_hit(hits, 0) {
        Some(i) => if i < catalog().len() {
            Some(catalog()[i])
        } else {
            None
        },
        None => None,
    }
}

/// Which catalog entries match the file name, entry by entry.
pub open spec fn catalog_hits(filename: Seq<char>) -> Seq<bool> {
    Seq::new(catalog().len(), |i: int| tag_matches(catalog()[i], filename))
}

/// The format of a chunk with this file name; `None` when the library does not know it.
pub open spec fn resolve_spec(filename: Seq<char>) -> Option<NuccBinaryType> {
    pick(catalog_hits(filename))
}

/// `first_hit` gives the least position that holds `true`, if there is one.
pub proof fn lemma_first_hit(hits: Seq<bool>, from: nat)
    ensures
        match first_hit(hits, from) {
            Some(i) => {
                &&& from <= i < hits.len()
                &&& hits[i]
                &&& forall|k: int| from <= k < i ==> !hits[k]
            },
            None => forall|k: int| from <= k < hits.len() ==> !hits[k],
        },
    decreases hits.len() - from,
{
    if from < hits.len() && !hits[from as int] {
        lemma_first_hit(hits, from + 1);
    }
}

proof fn lemma_first_hit_is(hits: Seq<bool>, from: nat, i: int)
    requires
        from <= i < hits.len(),
        hits[i],
        forall|k: int| from <= k < i ==> !hits[k],
    ensures
        first_hit(hits, from) == Some(i),
    decreases i - from,
{
    if from < i {
        lemma_first_hit_is(hits, from + 1, i);
    }
}

proof fn lemma_first_hit_none(hits: Seq<bool>, from: nat, upto: int)
    requires
        forall|k: int| from <= k < hits.len() && k < upto ==> !hits[k],
    ensures
        match first_hit(hits, from) {
            Some(i) => i >= upto,
            None => true,
        },
    decreases hits.len() - from,
{
    if from < hits.len() && from < upto {
        lemma_first_hit_none(hits, from + 1, upto);
    } else {
        lemma_first_hit(hits, from);
    }
}

/// Where the patterns of two catalog entries both match a file name, the entry that is
/// declared first wins: the file's format is never the later one, and is an entry at
/// or before the earlier one.
pub proof fn lemma_registry_priority(filename: Seq<char>, earlier: int, later: int)
    requires
        0 <= earlier < later < catalog().len(),
        tag_matches(catalog()[earlier], filename),
        tag_matches(catalog()[later], filename),
    ensures
        resolve_spec(filename) is Some,
        resolve_spec(filename).unwrap().position() <= earlier,
        resolve_spec(filename) != Some(catalog()[later]),
{
    let hits = catalog_hits(filename);
    lemma_first_hit(hits, 0);
    assert(hits[earlier]);
    let i = first_hit(hits, 0).unwrap();
    crate::binary_type::lemma_catalog_complete(catalog()[i]);
    crate::binary_type::lemma_catalog_complete(catalog()[later]);
}

/// Picks the tag for a file name from the answers of the catalog's patterns: `hits[i]`
/// says whether the pattern of the catalog's entry `i` matched. The first entry that
/// matched wins, whatever matched after it; `None` when none did.
pub fn first_match(hits: &[bool]) -> (tag: Option<NuccBinaryType>)
    ensures
        tag == pick(hits@),
{
    let all = NuccBinaryType::iter();
    let mut i: usize = 0;
    while i < all.len() && i < hits.len()
        invariant
            all@ == catalog(),
            forall|k: int| 0 <= k < i ==> !hits@[k],
        decreases all.len() - i,
    {
        if hits[i] {
            proof {
                lemma_first_hit_is(hits@, 0, i as int);
            }
            return Some(all[i]);
        }
        i += 1;
    }
    proof {
        lemma_first_hit_none(hits@, 0, catalog().len() as int);
    }
    None
}

/// Finds the format of a chunk from its file name.
///
/// The catalog's patterns are asked in the catalog's order, until one is found in the
/// name or none is left, and `first_match` picks the tag from their answers: where two
/// patterns match, the one declared first wins. `None` when no pattern matches; the
/// chunk is then one that the library leaves alone.
pub fn find_nucc_binary_type(filepath: &str) -> (tag: Option<NuccBinaryType>)
    ensures
        tag == resolve_spec(filepath@),
        match tag {
            Some(t) => {
                &&& tag_matches(t, filepath@)
                &&& forall|k: int| 0 <= k < t.position() ==> !tag_matches(catalog()[k], filepath@)
            },
            None => forall|k: int|
                0 <= k < catalog().len() ==> !tag_matches(catalog()[k], filepath@),
        },
{
    let all = NuccBinaryType::iter();
    let ghost answers = catalog_hits(filepath@);
    let mut hits: Vec<bool> = Vec::new();
    let mut found = false;
    while hits.len() < all.len() && !found
        invariant
            all@ == catalog(),
            answers == catalog_hits(filepath@),
            hits.len() <= all.len(),
            forall|k: int| 0 <= k < hits.len() ==> hits@[k] == answers[k],
            forall|k: int| 0 <= k < hits.len() - 1 ==> !hits@[k],
            found ==> hits.len() > 0 && hits@[hits.len() - 1],
            !found && hits.len() > 0 ==> !hits@[hits.len() - 1],
        decreases all.len() - hits.len(),
    {
        let candidate = all[hits.len()];
        found = match search(candidate.patterns(), candidate.is_case_insensitive(), filepath) {
            Some(yes) => yes,
            None => false,
        };
        hits.push(found);
    }
    let tag = first_match(hits.as_slice());
    proof {
        if found {
            let at = hits.len() - 1;
            lemma_first_hit_is(hits@, 0, at);
            lemma_first_hit_is(answers, 0, at);
            crate::binary_type::lemma_catalog_complete(catalog()[at]);
            assert(answers[at]);
            assert forall|k: int| 0 <= k < at implies !tag_matches(catalog()[k], filepath@) by {
                assert(!answers[k]);
            }
        } else {
            assert(hits@ =~= answers);
            lemma_first_hit(answers, 0);
            assert forall|k: int| 0 <= k < catalog().len() implies !tag_matches(
                catalog()[k],
                filepath@,
            ) by {
                assert(!answers[k]);
            }
        }
    }
    tag
}

} // verus!
