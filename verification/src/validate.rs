//! What makes a transfer request well formed: file identifiers that differ
//! from one another, and a total that is the sum of the files' sizes.

use crate::text::text_eq;
use crate::types::{TransferFile, TransferFileView, TransferRequest, TransferRequestView};
use vstd::prelude::*;

verus! {

/// The sum of the sizes of some files.
pub open spec fn sum_sizes(files: Seq<TransferFileView>) -> nat
    decreases files.len(),
{
    if files.len() == 0 {
        0
    } else {
        sum_sizes(files.drop_last()) + files.last().size as nat
    }
}

/// Whether no two of the files share an identifier.
pub open spec fn distinct_file_ids(files: Seq<TransferFileView>) -> bool {
    forall|i: int, j: int| 0 <= i < j < files.len() ==> files[i].id != files[j].id
}

/// Whether `i` is the place of the file with the identifier `id` that comes
/// first.
pub open spec fn first_file_with_id(files: Seq<TransferFileView>, id: Seq<char>, i: int) -> bool {
    &&& 0 <= i < files.len()
    &&& files[i].id == id
    &&& forall|j: int| 0 <= j < i ==> files[j].id != id
}

/// Whether some file has the identifier `id`.
pub open spec fn has_file(files: Seq<TransferFileView>, id: Seq<char>) -> bool {
    exists|i: int| 0 <= i < files.len() && #[trigger] files[i].id == id
}

impl TransferRequestView {
    /// Whether the request is well formed.
    pub open spec fn well_formed(self) -> bool {
        &&& distinct_file_ids(self.files)
        &&& sum_sizes(self.files) == self.total_size
    }
}

/// The sum over a part of the files, taken from the front, is at most the
/// sum over all of them.
pub proof fn lemma_sum_sizes_prefix(files: Seq<TransferFileView>, n: int)
    requires
        0 <= n <= files.len(),
    ensures
        sum_sizes(files.take(n)) <= sum_sizes(files),
    decreases files.len() - n,
{
    if n < files.len() {
        lemma_sum_sizes_prefix(files, n + 1);
        assert(files.take(n + 1).drop_last() =~= files.take(n));
    } else {
        assert(files.take(n) =~= files);
    }
}

/// The sum of the sizes of `files`, or `None` where it does not fit.
pub fn total_size_of(files: &Vec<TransferFile>) -> (r: Option<u64>)
    ensures
        match r {
            Some(total) => total == sum_sizes(files.deep_view()),
            None => sum_sizes(files.deep_view()) > u64::MAX,
        },
{
    let ghost all = files.deep_view();
    let mut total: u64 = 0;
    let mut i: usize = 0;
    while i < files.len()
        invariant
            i <= files.len(),
            all == files.deep_view(),
            total == sum_sizes(all.take(i as int)),
        decreases files.len() - i,
    {
        proof {
            assert(all.take(i as int + 1).drop_last() =~= all.take(i as int));
            assert(all.take(i as int + 1).last() == files[i as int]@);
            lemma_sum_sizes_prefix(all, i as int + 1);
        }
        match total.checked_add(files[i].size) {
            Some(next) => {
                total = next;
            },
            None => {
                return None;
            },
        }
        i = i + 1;
    }
    assert(all.take(i as int) =~= all);
    Some(total)
}

/// The place of the first file with the identifier `id`.
pub fn find_file(files: &Vec<TransferFile>, id: &str) -> (r: Option<usize>)
    ensures
        match r {
            Some(i) => first_file_with_id(files.deep_view(), id@, i as int),
            None => !has_file(files.deep_view(), id@),
        },
{
    let mut i: usize = 0;
    while i < files.len()
        invariant
            i <= files.len(),
            forall|j: int| 0 <= j < i ==> files.deep_view()[j].id != id@,
        decreases files.len() - i,
    {
        if text_eq(files[i].id.as_str(), id) {
            return Some(i);
        }
        i = i + 1;
    }
    None
}

/// Whether no two of the files share an identifier.
pub fn file_ids_distinct(files: &Vec<TransferFile>) -> (r: bool)
    ensures
        r == distinct_file_ids(files.deep_view()),
{
    let ghost all = files.deep_view();
    let mut j: usize = 0;
    while j < files.len()
        invariant
            j <= files.len(),
            all == files.deep_view(),
            forall|a: int, b: int| 0 <= a < b < j ==> all[a].id != all[b].id,
        decreases files.len() - j,
    {
        let mut i: usize = 0;
        while i < j
            invariant
                i <= j < files.len(),
                all == files.deep_view(),
                forall|a: int| 0 <= a < i ==> all[a].id != all[j as int].id,
            decreases j - i,
        {
            if text_eq(files[i].id.as_str(), files[j].id.as_str()) {
                assert(all[i as int].id == all[j as int].id);
                return false;
            }
            i = i + 1;
        }
        j = j + 1;
    }
    true
}

impl TransferRequest {
    /// Whether the request is well formed: its files' identifiers differ
    /// and its total is the sum of their sizes.
    pub fn is_well_formed(&self) -> (r: bool)
        ensures
            r == self@.well_formed(),
    {
        if !file_ids_distinct(&self.files) {
            return false;
        }
        match total_size_of(&self.files) {
            Some(total) => total == self.total_size,
            None => false,
        }
    }
}

} // verus!
