//! The filters that run before ranking.

use vstd::prelude::*;

use crate::heuristics::ranking::FileCandidate;
use crate::text;

verus! {

/// A candidate that reports at least `min` uncovered added lines.
pub open spec fn enough_uncovered<P>(min: i64) -> spec_fn(FileCandidate<P>) -> bool {
    |c: FileCandidate<P>| c.patch_misses >= min
}

/// Remove files with fewer uncovered added lines than `min`.
/// Default use: exclude files with 0 uncovered lines (`min = 1`).
pub fn apply_min_uncovered_lines_filter<P>(
    candidates: Vec<FileCandidate<P>>,
    min: i64,
) -> (r: Vec<FileCandidate<P>>)
    ensures
        r@ == candidates@.filter(enough_uncovered(min)),
        forall|i: int| 0 <= i < r@.len() ==> #[trigger] r@[i].patch_misses >= min,
{
    broadcast use vstd::seq_lib::group_filter_ensures;

    let ghost all = candidates@;
    let mut out: Vec<FileCandidate<P>> = Vec::new();
    for c in it: candidates
        invariant
            all == it.seq(),
            out@ == it.seq().take(it.index() as int).filter(enough_uncovered(min)),
    {
        proof {
            reveal_with_fuel(Seq::<_>::filter, 1);
        }
        if c.patch_misses >= min {
            out.push(c);
        }
        assert(it.seq().take(it.index() + 1).drop_last() =~= it.seq().take(it.index() as int));
    }
    assert(all.take(all.len() as int) =~= all);
    out
}


/// `path` ends with one of `extensions`.
pub open spec fn ends_with_any(path: Seq<char>, extensions: Seq<String>) -> bool {
    exists|k: int| 0 <= k < extensions.len() && (#[trigger] extensions[k])@.is_suffix_of(path)
}

/// A candidate whose path ends with one of `extensions`, or any candidate
/// when `extensions` is empty.
pub open spec fn extension_matches<P>(extensions: Seq<String>) -> spec_fn(FileCandidate<P>) -> bool {
    |c: FileCandidate<P>| extensions.len() == 0 || ends_with_any(c.file_path@, extensions)
}

/// Whether `path` ends with one of `extensions`.
pub fn path_has_extension(path: &String, extensions: &[String]) -> (r: bool)
    ensures
        r == ends_with_any(path@, extensions@),
        r <==> exists|k: int| 0 <= k < extensions@.len() && (#[trigger] extensions@[k])@.is_suffix_of(path@),
{
    let cs = text::chars_of(path.as_str());
    for k in 0..extensions.len()
        invariant
            cs@ == path@,
            forall|j: int| 0 <= j < k ==> !(#[trigger] extensions@[j])@.is_suffix_of(path@),
    {
        let ext = text::chars_of(extensions[k].as_str());
        if text::ends_with(&cs, &ext) {
            assert(extensions@[k as int]@.is_suffix_of(path@));
            return true;
        }
    }
    false
}

/// Remove files whose path doesn't end with one of the given extensions.
/// If `extensions` is empty, all files pass through.
///
/// Extensions should be provided with their dot, e.g. `".rs"`, `".py"`.
pub fn apply_extension_filter<P>(
    candidates: Vec<FileCandidate<P>>,
    extensions: &[String],
) -> (r: Vec<FileCandidate<P>>)
    ensures
        r@ == candidates@.filter(extension_matches(extensions@)),
        extensions@.len() == 0 ==> r@ == candidates@,
        forall|i: int| 0 <= i < r@.len() ==> extensions@.len() == 0 || ends_with_any(#[trigger] r@[i].file_path@, extensions@),
{
    broadcast use vstd::seq_lib::group_filter_ensures;
    if extensions.len() == 0 {
        proof {
            lemma_filter_keeps_all(candidates@, extension_matches(extensions@));
        }
        return candidates;
    }
    let ghost all = candidates@;
    let mut out: Vec<FileCandidate<P>> = Vec::new();
    for c in it: candidates
        invariant
            all == it.seq(),
            extensions@.len() > 0,
            out@ == it.seq().take(it.index() as int).filter(extension_matches(extensions@)),
    {
        proof {
            reveal_with_fuel(Seq::<_>::filter, 1);
        }
        if path_has_extension(&c.file_path, extensions) {
            out.push(c);
        }
        assert(it.seq().take(it.index() + 1).drop_last() =~= it.seq().take(it.index() as int));
    }
    assert(all.take(all.len() as int) =~= all);
    out
}

/// A candidate with at least one changed line.
pub open spec fn has_changes<P>() -> spec_fn(FileCandidate<P>) -> bool {
    |c: FileCandidate<P>| c.patch_lines > 0
}

/// Remove files that have no changed lines at all (e.g. deleted-only files).
pub fn apply_zero_change_filter<P>(candidates: Vec<FileCandidate<P>>) -> (r: Vec<FileCandidate<P>>)
    ensures
        r@ == candidates@.filter(has_changes()),
        forall|i: int| 0 <= i < r@.len() ==> #[trigger] r@[i].patch_lines > 0,
{
    broadcast use vstd::seq_lib::group_filter_ensures;
    let ghost all = candidates@;
    let mut out: Vec<FileCandidate<P>> = Vec::new();
    for c in it: candidates
        invariant
            all == it.seq(),
            out@ == it.seq().take(it.index() as int).filter(has_changes()),
    {
        proof {
            reveal_with_fuel(Seq::<_>::filter, 1);
        }
        if c.patch_lines > 0 {
            out.push(c);
        }
        assert(it.seq().take(it.index() + 1).drop_last() =~= it.seq().take(it.index() as int));
    }
    assert(all.take(all.len() as int) =~= all);
    out
}

/// Filtering with a predicate that every element meets keeps the sequence.
pub proof fn lemma_filter_keeps_all<A>(s: Seq<A>, pred: spec_fn(A) -> bool)
    requires
        forall|i: int| 0 <= i < s.len() ==> pred(#[trigger] s[i]),
    ensures
        s.filter(pred) == s,
    decreases s.len(),
{
    reveal_with_fuel(Seq::<_>::filter, 1);
    if s.len() > 0 {
        lemma_filter_keeps_all(s.drop_last(), pred);
        assert(s.drop_last().push(s.last()) =~= s);
    } else {
        assert(s.filter(pred) =~= s);
    }
}


/// Filtering by `p` and then by `q` keeps what meets both.
pub proof fn lemma_filter_twice<A>(s: Seq<A>, p: spec_fn(A) -> bool, q: spec_fn(A) -> bool)
    ensures
        s.filter(p).filter(q) == s.filter(|x: A| p(x) && q(x)),
    decreases s.len(),
{
    reveal_with_fuel(Seq::<_>::filter, 1);
    if s.len() > 0 {
        lemma_filter_twice(s.drop_last(), p, q);
        let fp = s.filter(p);
        if p(s.last()) {
            assert(fp.drop_last() =~= s.drop_last().filter(p));
            assert(fp.last() == s.last());
        }
    } else {
        assert(s.filter(p).filter(q) =~= s.filter(|x: A| p(x) && q(x)));
    }
}

/// A candidate that every filter of the pipeline keeps.
pub open spec fn passes_all<P>(min: i64, extensions: Seq<String>) -> spec_fn(FileCandidate<P>) -> bool {
    |c: FileCandidate<P>|
        (has_changes::<P>())(c) && (extension_matches::<P>(extensions))(c) && (enough_uncovered::<P>(
            min,
        ))(c)
}

/// Running the zero-change, extension and minimum-uncovered filters in turn
/// keeps exactly the candidates that pass all three, in their order.
pub proof fn lemma_filters_compose<P>(
    candidates: Seq<FileCandidate<P>>,
    min: i64,
    extensions: Seq<String>,
)
    ensures
        candidates.filter(has_changes()).filter(extension_matches(extensions)).filter(
            enough_uncovered(min),
        ) == candidates.filter(passes_all(min, extensions)),
{
    let a = has_changes::<P>();
    let b = extension_matches::<P>(extensions);
    let c = enough_uncovered::<P>(min);
    lemma_filter_twice(candidates, a, b);
    let ab = |x: FileCandidate<P>| a(x) && b(x);
    lemma_filter_twice(candidates, ab, c);
    assert((|x: FileCandidate<P>| ab(x) && c(x)) =~= passes_all::<P>(min, extensions));
}


/// The extension filter keeps a candidate exactly when no extensions are
/// given or the whole path ends with one of them.
pub proof fn lemma_extension_match_is_suffix<P>(extensions: Seq<String>, c: FileCandidate<P>)
    ensures
        (extension_matches::<P>(extensions))(c) <==> (extensions.len() == 0 || exists|k: int|
            0 <= k < extensions.len() && (#[trigger] extensions[k])@.is_suffix_of(c.file_path@)),
{
}

/// Of the candidates handed to the extension filter, those whose path ends
/// with one of the extensions are kept, and, when extensions are given,
/// those whose path ends with none of them are dropped (so `package.json`
/// is dropped by `.js`, and `app.tsx` by `.ts`).
pub proof fn lemma_extension_filter_keeps_exactly<P>(
    candidates: Seq<FileCandidate<P>>,
    extensions: Seq<String>,
)
    ensures
        forall|i: int|
            0 <= i < candidates.len() && (exists|k: int|
                0 <= k < extensions.len() && (#[trigger] extensions[k])@.is_suffix_of(
                    candidates[i].file_path@,
                )) ==> #[trigger] candidates.filter(extension_matches(extensions)).contains(
                candidates[i],
            ),
        forall|c: FileCandidate<P>|
            extensions.len() > 0 && (forall|k: int|
                0 <= k < extensions.len() ==> !(#[trigger] extensions[k])@.is_suffix_of(c.file_path@))
                ==> !(#[trigger] candidates.filter(extension_matches(extensions)).contains(c)),
{
    broadcast use vstd::seq_lib::group_filter_ensures;

    let pred = extension_matches::<P>(extensions);
    assert forall|c: FileCandidate<P>|
        extensions.len() > 0 && (forall|k: int|
            0 <= k < extensions.len() ==> !(#[trigger] extensions[k])@.is_suffix_of(c.file_path@))
            implies !(#[trigger] candidates.filter(pred).contains(c)) by {
        if candidates.filter(pred).contains(c) {
            let j = choose|j: int| 0 <= j < candidates.filter(pred).len() && candidates.filter(pred)[j] == c;
            assert(pred(candidates.filter(pred)[j]));
            let k = choose|k: int| 0 <= k < extensions.len() && (#[trigger] extensions[k])@.is_suffix_of(c.file_path@);
            assert(!extensions[k]@.is_suffix_of(c.file_path@));
        }
    }
    assert forall|i: int|
        0 <= i < candidates.len() && (exists|k: int|
            0 <= k < extensions.len() && (#[trigger] extensions[k])@.is_suffix_of(
                candidates[i].file_path@,
            )) implies #[trigger] candidates.filter(pred).contains(candidates[i]) by {
        assert(pred(candidates[i]));
    }
}

} // verus!
