//! The image index: what its three operations do to the records.
//!
//! The index is a list of rows, each found by its identifier. A run selects
//! one pending row, writes one status, and sweeps the whole index when
//! nothing is pending any more.

use vstd::prelude::*;
use crate::types::{Image, Licence, Status};

verus! {

/// One row of the index, as it is stored.
#[derive(Debug)]
pub struct Row {
    pub id: u64,
    pub title: String,
    pub source_url: String,
    pub image_url: String,
    pub licence_text: String,
    pub status: Status,
}

/// A row as plain values.
pub struct RowView {
    pub id: u64,
    pub title: Seq<char>,
    pub source_url: Seq<char>,
    pub image_url: Seq<char>,
    pub licence_text: Seq<char>,
    pub status: Status,
}

impl View for Row {
    type V = RowView;

    open spec fn view(&self) -> RowView {
        RowView {
            id: self.id,
            title: self.title@,
            source_url: self.source_url@,
            image_url: self.image_url@,
            licence_text: self.licence_text@,
            status: self.status,
        }
    }
}

impl RowView {
    /// This row under another status; nothing else of a row ever changes.
    pub open spec fn with_status(self, status: Status) -> RowView {
        RowView { status: status, ..self }
    }

    /// This row after the sweep: pending again, unless its image is too
    /// large, in which case it stays as it is.
    pub open spec fn swept(self) -> RowView {
        if self.status.spec_retryable() {
            self.with_status(Status::Unposted)
        } else {
            self
        }
    }
}

/// No identifier occurs in two rows.
pub open spec fn unique_ids(rows: Seq<RowView>) -> bool {
    forall|i: int, j: int| 0 <= i < j < rows.len() ==> (#[trigger] rows[i]).id != (
    #[trigger] rows[j]).id
}

/// Every identifier is positive.
pub open spec fn positive_ids(rows: Seq<RowView>) -> bool {
    forall|i: int| 0 <= i < rows.len() ==> (#[trigger] rows[i]).id > 0
}

/// Some row has the identifier `id`.
pub open spec fn has_id(rows: Seq<RowView>, id: u64) -> bool {
    exists|i: int| 0 <= i < rows.len() && (#[trigger] rows[i]).id == id
}

/// Some row is pending.
pub open spec fn has_pending(rows: Seq<RowView>) -> bool {
    exists|i: int| 0 <= i < rows.len() && (#[trigger] rows[i]).status == Status::Unposted
}

/// Row `i` is the one that a selection returns: the pending row of the
/// lowest identifier.
pub open spec fn is_next_pending(rows: Seq<RowView>, i: int) -> bool {
    &&& 0 <= i < rows.len()
    &&& rows[i].status == Status::Unposted
    &&& forall|j: int|
        0 <= j < rows.len() && (#[trigger] rows[j]).status == Status::Unposted ==> rows[i].id
            <= rows[j].id
}

/// `img` is what a run reads of `row`: its fields, with the licence text
/// read as a kind.
pub open spec fn reads_as(img: Image, row: RowView) -> bool {
    &&& img.id == row.id
    &&& img.title@ == row.title
    &&& img.source_url@ == row.source_url
    &&& img.image_url@ == row.image_url
    &&& img.licence == Licence::normalize(row.licence_text)
}

/// The rows after the sweep.
pub open spec fn swept(rows: Seq<RowView>) -> Seq<RowView> {
    Seq::new(rows.len(), |i: int| rows[i].swept())
}

/// The rows after `status` was written to the row of identifier `id`.
pub open spec fn written(rows: Seq<RowView>, id: u64, status: Status) -> Seq<RowView> {
    Seq::new(
        rows.len(),
        |i: int|
            if rows[i].id == id {
                rows[i].with_status(status)
            } else {
                rows[i]
            },
    )
}

/// The number of rows that the sweep applies to: all but those whose image
/// is too large, the pending ones included.
pub open spec fn retryable_count(rows: Seq<RowView>) -> nat
    decreases rows.len(),
{
    if rows.len() == 0 {
        0
    } else {
        retryable_count(rows.drop_last()) + if rows.last().status.spec_retryable() {
            1nat
        } else {
            0nat
        }
    }
}

/// The index of images.
#[derive(Debug)]
pub struct Index {
    rows: Vec<Row>,
}

impl View for Index {
    type V = Seq<RowView>;

    closed spec fn view(&self) -> Seq<RowView> {
        Seq::new(self.rows@.len(), |i: int| self.rows@[i]@)
    }
}

impl Index {
    /// What holds of every index: an identifier is positive and names at most
    /// one row.
    pub open spec fn wf(&self) -> bool {
        unique_ids(self@) && positive_ids(self@)
    }

    /// An index without rows.
    pub fn new() -> (index: Index)
        ensures
            index.wf(),
            index@ == Seq::<RowView>::empty(),
    {
        let index = Index { rows: Vec::new() };
        assert(index@ =~= Seq::<RowView>::empty());
        index
    }

    /// The number of rows.
    pub fn len(&self) -> (n: usize)
        ensures
            n == self@.len(),
    {
        self.rows.len()
    }

    /// The status of the row of identifier `id`, if there is such a row.
    pub fn status_of(&self, id: u64) -> (status: Option<Status>)
        ensures
            match status {
                Some(s) => exists|i: int|
                    0 <= i < self@.len() && (#[trigger] self@[i]).id == id && self@[i].status == s,
                None => !has_id(self@, id),
            },
    {
        let mut i: usize = 0;
        while i < self.rows.len()
            invariant
                i <= self.rows.len(),
                forall|k: int| 0 <= k < i ==> (#[trigger] self@[k]).id != id,
            decreases self.rows.len() - i,
        {
            if self.rows[i].id == id {
                assert(self@[i as int].id == id);
                return Some(self.rows[i].status);
            }
            i += 1;
        }
        None
    }

    /// Adds a row at the end. A row without a positive identifier, or with
    /// one that the index already holds, is not added.
    pub fn insert(&mut self, row: Row) -> (added: bool)
        requires
            old(self).wf(),
        ensures
            final(self).wf(),
            added == (row.id > 0 && !has_id(old(self)@, row.id)),
            added ==> final(self)@ == old(self)@.push(row@),
            !added ==> final(self)@ == old(self)@,
    {
        if row.id == 0 {
            return false;
        }
        if self.status_of(row.id).is_some() {
            return false;
        }
        self.rows.push(row);
        assert(self@ =~= old(self)@.push(row@));
        true
    }

    /// Selects the row to process: the pending row of the lowest identifier.
    /// `None` exactly where no row is pending. The index stays as it is.
    pub fn next_pending(&self) -> (found: Option<Image>)
        ensures
            found is Some <==> has_pending(self@),
            found is Some ==> exists|i: int| #[trigger]
                is_next_pending(self@, i) && reads_as(found->Some_0, self@[i]),
    {
        let mut best: Option<usize> = None;
        let mut i: usize = 0;
        while i < self.rows.len()
            invariant
                i <= self.rows.len(),
                match best {
                    None => forall|k: int|
                        0 <= k < i ==> (#[trigger] self@[k]).status != Status::Unposted,
                    Some(b) => b < i && self@[b as int].status == Status::Unposted && forall|
                        k: int,
                    |
                        0 <= k < i && (#[trigger] self@[k]).status == Status::Unposted
                            ==> self@[b as int].id <= self@[k].id,
                },
            decreases self.rows.len() - i,
        {
            let pending = match self.rows[i].status {
                Status::Unposted => true,
                _ => false,
            };
            if pending {
                let lower = match best {
                    None => true,
                    Some(b) => self.rows[i].id < self.rows[b].id,
                };
                if lower {
                    best = Some(i);
                }
            }
            i += 1;
        }
        match best {
            None => None,
            Some(b) => {
                let row = &self.rows[b];
                let img = Image {
                    id: row.id,
                    title: row.title.clone(),
                    source_url: row.source_url.clone(),
                    image_url: row.image_url.clone(),
                    licence: Licence::from(row.licence_text.clone()),
                };
                assert(is_next_pending(self@, b as int));
                assert(reads_as(img, self@[b as int]));
                Some(img)
            },
        }
    }

    /// The sweep: every row becomes pending again, but for those whose image
    /// is too large, which stay as they are. Returns the number of rows that
    /// the sweep applied to, those that were pending already included.
    pub fn reset_retryable(&mut self) -> (count: usize)
        requires
            old(self).wf(),
        ensures
            final(self).wf(),
            final(self)@ == swept(old(self)@),
            count == retryable_count(old(self)@),
    {
        let mut count: usize = 0;
        let mut i: usize = 0;
        while i < self.rows.len()
            invariant
                i <= self.rows.len(),
                self@.len() == old(self)@.len(),
                forall|k: int| 0 <= k < i ==> #[trigger] self@[k] == old(self)@[k].swept(),
                forall|k: int| i <= k < self@.len() ==> #[trigger] self@[k] == old(self)@[k],
                count == retryable_count(old(self)@.take(i as int)),
                count <= i,
            decreases self.rows.len() - i,
        {
            proof {
                assert(old(self)@.take(i + 1).drop_last() =~= old(self)@.take(i as int));
                assert(self@[i as int] == old(self)@[i as int]);
            }
            if self.rows[i].status.retryable() {
                let ghost before = self@;
                self.rows[i].status = Status::Unposted;
                assert(self@.len() == before.len());
                assert(self@[i as int] == before[i as int].with_status(Status::Unposted));
                assert forall|k: int| 0 <= k < before.len() && k != i implies #[trigger] self@[k]
                    == before[k] by {}
                count += 1;
            }
            i += 1;
        }
        proof {
            assert(old(self)@.take(i as int) =~= old(self)@);
            assert(self@ =~= swept(old(self)@));
            lemma_swept_keeps_ids(old(self)@);
        }
        count
    }

    /// Writes `status` to the row of identifier `id` and to no other. Returns
    /// the number of rows written: 1, or 0 where the index holds no such row,
    /// and then nothing has changed.
    pub fn write_status(&mut self, id: u64, status: Status) -> (count: usize)
        requires
            old(self).wf(),
        ensures
            final(self).wf(),
            final(self)@ == written(old(self)@, id, status),
            count == (if has_id(old(self)@, id) {
                1usize
            } else {
                0usize
            }),
    {
        let mut i: usize = 0;
        while i < self.rows.len()
            invariant
                i <= self.rows.len(),
                self@ == old(self)@,
                old(self).wf(),
                forall|k: int| 0 <= k < i ==> (#[trigger] self@[k]).id != id,
            decreases self.rows.len() - i,
        {
            if self.rows[i].id == id {
                assert(old(self)@[i as int].id == id);
                let ghost before = self@;
                self.rows[i].status = status;
                assert(self@.len() == before.len());
                assert(self@[i as int] == before[i as int].with_status(status));
                assert forall|k: int| 0 <= k < before.len() && k != i implies #[trigger] self@[k]
                    == before[k] by {}
                proof {
                    assert forall|k: int| 0 <= k < before.len() implies #[trigger] self@[k]
                        == written(before, id, status)[k] by {
                        if k < i {
                            assert(before[k].id != before[i as int].id);
                        } else if k > i {
                            assert(before[i as int].id != before[k].id);
                        }
                    }
                    assert(self@ =~= written(old(self)@, id, status));
                    lemma_written_keeps_ids(old(self)@, id, status);
                }
                return 1;
            }
            i += 1;
        }
        proof {
            assert(self@ =~= written(old(self)@, id, status));
        }
        0
    }
}

/// The sweep changes no identifier.
pub proof fn lemma_swept_keeps_ids(rows: Seq<RowView>)
    ensures
        swept(rows).len() == rows.len(),
        forall|i: int| 0 <= i < rows.len() ==> (#[trigger] swept(rows)[i]).id == rows[i].id,
        unique_ids(rows) ==> unique_ids(swept(rows)),
        positive_ids(rows) ==> positive_ids(swept(rows)),
{
    let after = swept(rows);
    if unique_ids(rows) {
        assert forall|i: int, j: int| 0 <= i < j < after.len() implies (#[trigger] after[i]).id != (
        #[trigger] after[j]).id by {
            assert(rows[i].id != rows[j].id);
        }
    }
    if positive_ids(rows) {
        assert forall|i: int| 0 <= i < after.len() implies (#[trigger] after[i]).id > 0 by {
            assert(rows[i].id > 0);
        }
    }
}

/// Writing a status changes no identifier.
pub proof fn lemma_written_keeps_ids(rows: Seq<RowView>, id: u64, status: Status)
    ensures
        written(rows, id, status).len() == rows.len(),
        forall|i: int|
            0 <= i < rows.len() ==> (#[trigger] written(rows, id, status)[i]).id == rows[i].id,
        unique_ids(rows) ==> unique_ids(written(rows, id, status)),
        positive_ids(rows) ==> positive_ids(written(rows, id, status)),
        has_id(written(rows, id, status), id) == has_id(rows, id),
{
    let after = written(rows, id, status);
    if unique_ids(rows) {
        assert forall|i: int, j: int| 0 <= i < j < after.len() implies (#[trigger] after[i]).id != (
        #[trigger] after[j]).id by {
            assert(rows[i].id != rows[j].id);
        }
    }
    if positive_ids(rows) {
        assert forall|i: int| 0 <= i < after.len() implies (#[trigger] after[i]).id > 0 by {
            assert(rows[i].id > 0);
        }
    }
    if has_id(rows, id) {
        let i = choose|i: int| 0 <= i < rows.len() && (#[trigger] rows[i]).id == id;
        assert(after[i].id == id);
    }
    if has_id(after, id) {
        let i = choose|i: int| 0 <= i < after.len() && (#[trigger] after[i]).id == id;
        assert(rows[i].id == id);
    }
}

/// What the sweep does to each row: one whose image is too large stays as
/// it is; any other, whether it failed to download, failed to post or was
/// posted, is pending afterwards. Nothing but the status changes.
pub proof fn lemma_sweep_effect(rows: Seq<RowView>, i: int)
    requires
        0 <= i < rows.len(),
    ensures
        swept(rows).len() == rows.len(),
        swept(rows)[i] == rows[i].with_status(swept(rows)[i].status),
        rows[i].status == Status::ImageTooLarge ==> swept(rows)[i].status
            == Status::ImageTooLarge,
        rows[i].status == Status::DownloadFail ==> swept(rows)[i].status == Status::Unposted,
        rows[i].status == Status::PostFail ==> swept(rows)[i].status == Status::Unposted,
        rows[i].status == Status::Success ==> swept(rows)[i].status == Status::Unposted,
        rows[i].status == Status::Unposted ==> swept(rows)[i].status == Status::Unposted,
{
}

/// A second sweep changes nothing.
pub proof fn lemma_sweep_twice(rows: Seq<RowView>)
    ensures
        swept(swept(rows)) == swept(rows),
{
    assert(swept(swept(rows)) =~= swept(rows));
}

/// After the sweep a row is pending exactly where some row's image is not
/// too large: an index of oversized images stays without pending rows.
pub proof fn lemma_sweep_pending(rows: Seq<RowView>)
    ensures
        has_pending(swept(rows)) <==> exists|i: int|
            0 <= i < rows.len() && (#[trigger] rows[i]).status != Status::ImageTooLarge,
{
    let after = swept(rows);
    if has_pending(after) {
        let i = choose|i: int|
            0 <= i < after.len() && (#[trigger] after[i]).status == Status::Unposted;
        assert(rows[i].status != Status::ImageTooLarge);
    }
    if exists|i: int| 0 <= i < rows.len() && (#[trigger] rows[i]).status != Status::ImageTooLarge {
        let i = choose|i: int|
            0 <= i < rows.len() && (#[trigger] rows[i]).status != Status::ImageTooLarge;
        assert(after[i].status == Status::Unposted);
    }
}

/// What a write does to each row: the row of the identifier gets the status,
/// every other row stays as it is.
pub proof fn lemma_write_effect(rows: Seq<RowView>, id: u64, status: Status, i: int)
    requires
        0 <= i < rows.len(),
    ensures
        written(rows, id, status).len() == rows.len(),
        rows[i].id == id ==> written(rows, id, status)[i] == rows[i].with_status(status),
        rows[i].id != id ==> written(rows, id, status)[i] == rows[i],
        !has_id(rows, id) ==> written(rows, id, status) == rows,
{
    if !has_id(rows, id) {
        assert(written(rows, id, status) =~= rows);
    }
}

/// Writing the same status to the same identifier a second time changes
/// nothing, and finds the row exactly where the first write found it.
pub proof fn lemma_write_twice(rows: Seq<RowView>, id: u64, status: Status)
    ensures
        written(written(rows, id, status), id, status) == written(rows, id, status),
        has_id(written(rows, id, status), id) == has_id(rows, id),
{
    assert(written(written(rows, id, status), id, status) =~= written(rows, id, status));
    lemma_written_keeps_ids(rows, id, status);
}

/// Where no identifier occurs twice, a selection has one answer.
pub proof fn lemma_next_pending_unique(rows: Seq<RowView>, i: int, j: int)
    requires
        unique_ids(rows),
        is_next_pending(rows, i),
        is_next_pending(rows, j),
    ensures
        i == j,
{
    if i < j {
        assert(rows[i].id != rows[j].id);
    } else if j < i {
        assert(rows[j].id != rows[i].id);
    }
}

/// A run moves on: once a status other than `Unposted` is written to the
/// selected row, that row is selected no more, and no other row has changed.
pub proof fn lemma_written_row_leaves_selection(rows: Seq<RowView>, i: int, status: Status)
    requires
        unique_ids(rows),
        is_next_pending(rows, i),
        status != Status::Unposted,
    ensures
        written(rows, rows[i].id, status)[i] == rows[i].with_status(status),
        forall|j: int|
            0 <= j < rows.len() && j != i ==> #[trigger] written(rows, rows[i].id, status)[j]
                == rows[j],
        !is_next_pending(written(rows, rows[i].id, status), i),
{
    let after = written(rows, rows[i].id, status);
    assert forall|j: int| 0 <= j < rows.len() && j != i implies #[trigger] after[j]
        == rows[j] by {
        if j < i {
            assert(rows[j].id != rows[i].id);
        } else {
            assert(rows[i].id != rows[j].id);
        }
    }
}

} // verus!
