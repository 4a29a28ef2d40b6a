//! The history of finished transfers: at most a fixed number of records,
//! oldest first.

use crate::text::text_eq;
use crate::types::{TransferRecord, TransferRecordView};
use vstd::prelude::*;

verus! {

/// The number of records the history keeps.
pub const MAX_HISTORY_ENTRIES: usize = 100;

/// A history cut down to its newest `MAX_HISTORY_ENTRIES` records.
pub open spec fn capped(records: Seq<TransferRecordView>) -> Seq<TransferRecordView> {
    if records.len() > MAX_HISTORY_ENTRIES {
        records.skip(records.len() - MAX_HISTORY_ENTRIES)
    } else {
        records
    }
}

/// Whether `i` is the place of the first record with the identifier `id`.
pub open spec fn first_record_with_id(
    records: Seq<TransferRecordView>,
    id: Seq<char>,
    i: int,
) -> bool {
    &&& 0 <= i < records.len()
    &&& records[i].id == id
    &&& forall|j: int| 0 <= j < i ==> records[j].id != id
}

/// Whether some record has the identifier `id`.
pub open spec fn has_record(records: Seq<TransferRecordView>, id: Seq<char>) -> bool {
    exists|i: int| 0 <= i < records.len() && #[trigger] records[i].id == id
}

/// Model of a [`HistoryStore`].
pub struct HistoryStoreView {
    pub records: Seq<TransferRecordView>,
    pub file_path: Seq<char>,
}

/// The transfer history, and the file it is kept in.
pub struct HistoryStore {
    records: Vec<TransferRecord>,
    file_path: String,
}

impl View for HistoryStore {
    type V = HistoryStoreView;

    closed spec fn view(&self) -> HistoryStoreView {
        HistoryStoreView { records: self.records.deep_view(), file_path: self.file_path@ }
    }
}

impl HistoryStore {
    /// A store for the file at `file_path`, holding the records loaded from
    /// it.
    pub fn new(file_path: String, loaded: Vec<TransferRecord>) -> (r: Self)
        ensures
            r@.file_path == file_path@,
            r@.records == loaded.deep_view(),
    {
        HistoryStore { records: loaded, file_path }
    }

    /// The file in which the history is kept.
    pub fn file_path(&self) -> (r: String)
        ensures
            r@ == self@.file_path,
    {
        self.file_path.clone()
    }

    /// All records, oldest first.
    pub fn list(&self) -> (r: Vec<TransferRecord>)
        ensures
            r.deep_view() == self@.records,
    {
        let mut out: Vec<TransferRecord> = Vec::new();
        let mut i: usize = 0;
        while i < self.records.len()
            invariant
                i <= self.records.len(),
                out.len() == i,
                forall|j: int| 0 <= j < i ==> out[j]@ == self.records[j]@,
            decreases self.records.len() - i,
        {
            out.push(self.records[i].clone());
            i = i + 1;
        }
        assert(out.deep_view() =~= self.records.deep_view());
        out
    }

    /// Adds a record as the newest, and drops the oldest records beyond the
    /// limit.
    pub fn add(&mut self, record: TransferRecord)
        ensures
            final(self)@.records == capped(old(self)@.records.push(record@)),
            final(self)@.file_path == old(self)@.file_path,
    {
        let ghost all = self.records.deep_view().push(record@);
        self.records.push(record);
        assert(self.records.deep_view() =~= all);
        let ghost mut dropped: int = 0;
        while self.records.len() > MAX_HISTORY_ENTRIES
            invariant
                0 <= dropped <= all.len(),
                self.records.deep_view() == all.skip(dropped),
                self.records.len() == all.len() - dropped,
                dropped > 0 ==> self.records.len() >= MAX_HISTORY_ENTRIES,
                self.file_path == old(self).file_path,
            decreases self.records.len(),
        {
            let ghost before = self.records.deep_view();
            let _ = self.records.remove(0);
            proof {
                assert(self.records.deep_view() =~= before.skip(1));
                assert(before.skip(1) =~= all.skip(dropped + 1));
                dropped = dropped + 1;
            }
        }
        assert(all.skip(0) =~= all);
    }

    /// Forgets every record.
    pub fn clear(&mut self)
        ensures
            final(self)@.records == Seq::<TransferRecordView>::empty(),
            final(self)@.file_path == old(self)@.file_path,
    {
        self.records.clear();
        assert(self.records.deep_view() =~= Seq::<TransferRecordView>::empty());
    }

    fn position(&self, id: &str) -> (r: Option<usize>)
        ensures
            match r {
                Some(i) => first_record_with_id(self@.records, id@, i as int),
                None => !has_record(self@.records, id@),
            },
    {
        let mut i: usize = 0;
        while i < self.records.len()
            invariant
                i <= self.records.len(),
                forall|j: int| 0 <= j < i ==> self.records.deep_view()[j].id != id@,
            decreases self.records.len() - i,
        {
            if text_eq(self.records[i].id.as_str(), id) {
                return Some(i);
            }
            i = i + 1;
        }
        None
    }

    /// The first record with the identifier `id`, if there is one.
    pub fn get(&self, id: &str) -> (r: Option<TransferRecord>)
        ensures
            match r {
                Some(rec) => exists|i: int|
                    first_record_with_id(self@.records, id@, i) && rec@ == self@.records[i],
                None => !has_record(self@.records, id@),
            },
    {
        match self.position(id) {
            Some(i) => Some(self.records[i].clone()),
            None => None,
        }
    }

    /// Replaces the first record with the identifier `id` by what
    /// `update_fn` makes of it, and says whether there was such a record.
    pub fn update<F: FnOnce(TransferRecord) -> TransferRecord>(
        &mut self,
        id: &str,
        update_fn: F,
    ) -> (r: bool)
        requires
            forall|rec: TransferRecord| call_requires(update_fn, (rec,)),
        ensures
            r == has_record(old(self)@.records, id@),
            final(self)@.file_path == old(self)@.file_path,
            !r ==> final(self)@ == old(self)@,
            r ==> exists|i: int, before: TransferRecord, after: TransferRecord|
                first_record_with_id(old(self)@.records, id@, i) && before@ == old(
                    self,
                )@.records[i] && call_ensures(update_fn, (before,), after) && final(self)@.records
                    == old(self)@.records.update(i, after@),
    {
        match self.position(id) {
            Some(i) => {
                let ghost records = self.records.deep_view();
                let before = self.records[i].clone();
                let ghost before_copy = before;
                let after = update_fn(before);
                let ghost after_copy = after;
                self.records[i] = after;
                assert(self.records.deep_view() =~= records.update(i as int, after_copy@));
                assert(first_record_with_id(records, id@, i as int) && before_copy@ == records[i as int]
                    && call_ensures(update_fn, (before_copy,), after_copy));
                true
            },
            None => false,
        }
    }
}

} // verus!
