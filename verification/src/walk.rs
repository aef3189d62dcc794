//! The walk's decisions: which traversal entries produce a result, and what
//! a whole traversal delivers.
//!
//! The tree walker collaborator yields entries depth-first; the unverified
//! shell reduces each to a [`WalkEntry`] and feeds it through
//! [`process_entry`], streaming every produced result to the consumer in
//! traversal order.

use vstd::prelude::*;

verus! {

use crate::classifier::{classify, classify_model, content_view, MediaWalkResult, WalkResultView};

/// One entry yielded by the tree walker, reduced to what the walk's
/// decision reads.
pub enum WalkEntry {
    /// A directory or other non-regular entry.
    NotRegular,
    /// A regular file whose path is not valid text.
    Unrepresentable,
    /// A regular file with its textual path and what reading its content
    /// produced.
    File { path: String, content: Result<Vec<u8>, std::io::Error> },
}

impl WalkEntry {
    /// The tree walker hands over non-empty paths only.
    pub open spec fn wf(self) -> bool {
        match self {
            WalkEntry::File { path, .. } => path@.len() > 0,
            _ => true,
        }
    }
}

/// What one entry contributes to the stream: nothing unless it is a regular
/// file with a textual path, and for such a file its classification.
pub open spec fn entry_result_model(e: WalkEntry) -> Option<WalkResultView> {
    match e {
        WalkEntry::File { path, content } => Some(classify_model(path@, content_view(content))),
        _ => None,
    }
}

/// Everything a traversal delivers, in traversal order: the contributions
/// of its entries, entries that contribute nothing skipped.
pub open spec fn results_model(s: Seq<WalkEntry>) -> Seq<WalkResultView>
    decreases s.len(),
{
    if s.len() == 0 {
        Seq::empty()
    } else {
        results_model(s.drop_last()) + (match entry_result_model(s.last()) {
            Some(r) => seq![r],
            None => Seq::empty(),
        })
    }
}

/// The views of a sequence of delivered results.
pub open spec fn views_of(s: Seq<MediaWalkResult>) -> Seq<WalkResultView> {
    s.map_values(|r: MediaWalkResult| r@)
}

/// One traversal step's decision: a directory, another non-regular entry or
/// a file without a textual path is skipped silently; a regular file with a
/// textual path is classified and produces exactly one result.
pub fn process_entry(entry: WalkEntry) -> (r: Option<MediaWalkResult>)
    requires
        entry.wf(),
    ensures
        (match r {
            Some(res) => entry_result_model(entry) == Some(res@) && res@.wf(),
            None => entry_result_model(entry) is None,
        }),
        r is Some <==> entry matches WalkEntry::File { .. },
{
    match entry {
        WalkEntry::File { path, content } => Some(classify(path, content)),
        _ => None,
    }
}

/// The regular files with textual paths among a traversal's entries, in
/// traversal order.
pub open spec fn file_entries(s: Seq<WalkEntry>) -> Seq<WalkEntry>
    decreases s.len(),
{
    if s.len() == 0 {
        Seq::empty()
    } else {
        file_entries(s.drop_last()) + (if s.last() matches WalkEntry::File { .. } {
            seq![s.last()]
        } else {
            Seq::empty()
        })
    }
}

/// Law: directories and other non-regular entries, and files whose path is
/// not valid text, never contribute a result to the stream.
pub proof fn lemma_non_file_entry_no_result(e: WalkEntry)
    requires
        !(e matches WalkEntry::File { .. }),
    ensures
        entry_result_model(e) is None,
{
}

/// Law: the stream is exactly the classification of the traversal's regular
/// files with textual paths — one result per such file, in traversal order.
pub proof fn lemma_one_result_per_file(s: Seq<WalkEntry>)
    ensures
        results_model(s).len() == file_entries(s).len(),
        forall|i: int| 0 <= i < file_entries(s).len()
            ==> Some(#[trigger] results_model(s)[i]) == entry_result_model(file_entries(s)[i]),
    decreases s.len(),
{
    if s.len() > 0 {
        lemma_one_result_per_file(s.drop_last());
    }
}

/// Law: walking an unchanged tree twice is idempotent — the tree walker
/// yields the same entries by contract, and classification is a function of
/// the entry alone, so the two streams hold the same multiset of results.
pub proof fn lemma_walk_idempotent(first: Seq<WalkEntry>, second: Seq<WalkEntry>)
    requires
        first == second,
    ensures
        results_model(first).to_multiset() == results_model(second).to_multiset(),
{
}

/// Process a whole traversal: one result per regular file with a textual
/// path, in traversal order, and none for any other entry.
pub fn walk_results(entries: Vec<WalkEntry>) -> (r: Vec<MediaWalkResult>)
    requires
        forall|i: int| 0 <= i < entries@.len() ==> (#[trigger] entries@[i]).wf(),
    ensures
        views_of(r@) == results_model(entries@),
{
    let ghost all = entries@;
    let mut remaining = entries;
    let mut r: Vec<MediaWalkResult> = Vec::new();
    let ghost mut k: int = 0;
    while remaining.len() > 0
        invariant
            0 <= k <= all.len(),
            remaining@ == all.skip(k),
            forall|i: int| 0 <= i < all.len() ==> (#[trigger] all[i]).wf(),
            views_of(r@) == results_model(all.take(k)),
        decreases remaining@.len(),
    {
        let e = remaining.remove(0);
        proof {
            assert(e == all[k]);
            assert(remaining@ =~= all.skip(k + 1));
        }
        let ghost r_before = r@;
        match process_entry(e) {
            Some(res) => {
                r.push(res);
                proof {
                    assert(views_of(r@) =~= views_of(r_before).push(res@));
                }
            },
            None => {},
        }
        proof {
            assert(all.take(k + 1).drop_last() =~= all.take(k));
            assert(all.take(k + 1).last() == all[k]);
            assert(views_of(r@) =~= results_model(all.take(k + 1)));
            k = k + 1;
        }
    }
    proof {
        assert(all.take(k) =~= all);
    }
    r
}

} // verus!
