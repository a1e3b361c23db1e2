//! An in-memory ad repository: the repository contract on plain values, for
//! use where no relational store is at hand. Rows keep insertion order, and
//! a cursor holds the rows that matched when it was declared.

use crate::filter::{clause_list, clauses_view, AdFilter, AdFilterView, Clause, ClauseView};
use crate::matching::{clauses_valid, filter_valid, matching, row_matches, satisfies};
use crate::model::{
    created_row, current_time, texts_view, Ad, AdContent, AdContentView, AdView, Timestamp,
};
use crate::repo::{ErrorKind, RepoError};
use crate::statement::{is_cursor_name, new_cursor_name};
use vstd::prelude::*;
use vstd::string::StringExecFns;

verus! {

/// The views of a list of ads, item by item.
pub open spec fn ads_view(ads: Seq<Ad>) -> Seq<AdView> {
    Seq::new(ads.len(), |i: int| ads[i]@)
}

/// Up to `count` items of `s` after skipping `offset`; shorter, or empty,
/// where `s` ends first.
pub open spec fn window<A>(s: Seq<A>, offset: nat, count: nat) -> Seq<A> {
    let from = if offset <= s.len() {
        offset
    } else {
        s.len()
    };
    let to = if offset + count <= s.len() {
        offset + count
    } else {
        s.len()
    };
    s.subrange(from as int, to as int)
}

/// Some row carries the identifier.
pub open spec fn has_id(rows: Seq<AdView>, id: int) -> bool {
    exists|i: int| 0 <= i < rows.len() && (#[trigger] rows[i]).id == id
}

/// The table's invariant: identifiers are unique and below the next one to
/// be assigned, and every price is within the supported scale.
pub open spec fn rows_valid(rows: Seq<AdView>, next_id: int) -> bool {
    &&& forall|i: int|
        0 <= i < rows.len() ==> (#[trigger] rows[i]).id < next_id && rows[i].price.well_formed()
    &&& forall|i: int, j: int|
        0 <= i < j < rows.len() ==> (#[trigger] rows[i]).id != (#[trigger] rows[j]).id
}

/// The rows a page holds.
pub open spec fn page_rows(rows: Seq<AdView>, f: AdFilterView, offset: nat, per_page: nat) -> Seq<
    AdView,
> {
    window(matching(rows, clause_list(f)), offset, per_page)
}

/// The rows a cursor declared over `rows` holds, fixed in membership and
/// order from then on.
pub open spec fn cursor_snapshot(rows: Seq<AdView>, f: AdFilterView) -> Seq<AdView> {
    matching(rows, clause_list(f))
}

/// The mathematical value of an open cursor.
pub struct CursorView {
    pub name: Seq<char>,
    pub rows: Seq<AdView>,
    pub position: nat,
}

/// Some open cursor carries the name.
pub open spec fn has_cursor(cursors: Seq<CursorView>, name: Seq<char>) -> bool {
    exists|i: int| 0 <= i < cursors.len() && (#[trigger] cursors[i]).name == name
}

/// The cursors' invariant: names are unique and no position lies beyond
/// the end of its rows.
pub open spec fn cursors_valid(cursors: Seq<CursorView>) -> bool {
    &&& forall|i: int|
        0 <= i < cursors.len() ==> (#[trigger] cursors[i]).position <= cursors[i].rows.len()
    &&& forall|i: int, j: int|
        0 <= i < j < cursors.len() ==> (#[trigger] cursors[i]).name != (#[trigger] cursors[j]).name
}

struct OpenCursor {
    name: String,
    rows: Vec<Ad>,
    position: usize,
}

impl View for OpenCursor {
    type V = CursorView;

    closed spec fn view(&self) -> CursorView {
        CursorView { name: self.name@, rows: ads_view(self.rows@), position: self.position as nat }
    }
}

/// The next window does not depend on what lies before it: a batch of
/// `a + b` rows is the batch of `a` followed by the batch of `b`.
pub proof fn law_batches_concatenate<A>(s: Seq<A>, offset: nat, a: nat, b: nat)
    ensures
        window(s, offset, a) + window(s, offset + a, b) =~= window(s, offset, a + b),
{
}

/// A window that starts at the beginning and is at least as long as the
/// sequence is the whole sequence.
pub proof fn law_full_window<A>(s: Seq<A>, count: nat)
    requires
        count >= s.len(),
    ensures
        window(s, 0, count) =~= s,
{
}

/// A page of zero rows and a fetch of zero rows are empty.
pub proof fn law_empty_window<A>(s: Seq<A>, offset: nat)
    ensures
        window(s, offset, 0).len() == 0,
{
}

/// A page beyond the last row is empty.
pub proof fn law_window_beyond_end<A>(s: Seq<A>, offset: nat, count: nat)
    requires
        offset >= s.len(),
    ensures
        window(s, offset, count).len() == 0,
{
}

/// Paging and cursor fetching agree: over one table and one filter, the
/// batch a cursor yields after `fetched` rows is the page at offset
/// `fetched` of the same size.
pub proof fn law_cursor_batch_is_page(rows: Seq<AdView>, f: AdFilterView, fetched: nat, count: nat)
    ensures
        window(cursor_snapshot(rows, f), fetched, count) == page_rows(rows, f, fetched, count),
{
}

/// What `k` successive fetches of `count` rows yield, put end to end, from
/// a cursor that stands at `position`: each fetch takes the next window
/// and moves the cursor past it.
pub open spec fn batches<A>(s: Seq<A>, position: nat, count: nat, k: nat) -> Seq<A>
    decreases k,
{
    if k == 0 {
        Seq::empty()
    } else {
        let first = window(s, position, count);
        first + batches(s, position + first.len(), count, (k - 1) as nat)
    }
}

/// Successive fetches neither skip nor repeat a row: `k` fetches of
/// `count` rows yield the one window of `k * count` rows.
pub proof fn law_batches_are_one_window<A>(s: Seq<A>, position: nat, count: nat, k: nat)
    requires
        position <= s.len(),
    ensures
        batches(s, position, count, k) =~= window(s, position, k * count),
    decreases k,
{
    if k == 0 {
        assert(k * count == 0) by (nonlinear_arith)
            requires
                k == 0,
        ;
    } else {
        let first = window(s, position, count);
        let fewer = (k - 1) as nat;
        let rest = fewer * count;
        assert(k * count == count + rest) by (nonlinear_arith)
            requires
                k >= 1,
                fewer == k - 1,
                rest == fewer * count,
        ;
        law_batches_are_one_window(s, position + first.len(), count, fewer);
        let tail = window(s, position + first.len(), rest);
        assert(batches(s, position, count, k) == first + batches(
            s,
            position + first.len(),
            count,
            fewer,
        ));
        assert(batches(s, position + first.len(), count, fewer) =~= tail);
        if first.len() == count {
            law_batches_concatenate(s, position, count, rest);
        } else {
            assert(position + first.len() == s.len());
            assert(tail.len() == 0);
            assert(first + tail =~= window(s, position, k * count));
        }
    }
}

/// A filter selects no more rows than the table holds.
pub proof fn law_matching_is_no_longer(rows: Seq<AdView>, clauses: Seq<ClauseView>)
    ensures
        matching(rows, clauses).len() <= rows.len(),
    decreases rows.len(),
{
    if rows.len() > 0 {
        law_matching_is_no_longer(rows.drop_last(), clauses);
    }
}

/// The rows a filter selects from a valid table carry distinct
/// identifiers.
pub proof fn law_matching_ids_distinct(rows: Seq<AdView>, next_id: int, clauses: Seq<ClauseView>)
    requires
        rows_valid(rows, next_id),
    ensures
        forall|i: int, j: int|
            0 <= i < j < matching(rows, clauses).len() ==> (#[trigger] matching(rows, clauses)[i]).id
                != (#[trigger] matching(rows, clauses)[j]).id,
    decreases rows.len(),
{
    if rows.len() > 0 {
        let head = rows.drop_last();
        let before = matching(head, clauses);
        let all = matching(rows, clauses);
        assert forall|i: int| 0 <= i < head.len() implies (#[trigger] head[i]) == rows[i] by {}
        law_matching_ids_distinct(head, next_id, clauses);
        assert forall|i: int, j: int| 0 <= i < j < all.len() implies (#[trigger] all[i]).id != (
        #[trigger] all[j]).id by {
            if j < before.len() {
                assert(all[i] == before[i] && all[j] == before[j]);
            } else {
                assert(all[j] == rows.last());
                assert(all[i] == before[i]);
                law_matching_rows_match(head, clauses, i);
                let k = choose|k: int| 0 <= k < head.len() && head[k] == before[i];
                assert(rows[k].id != rows[rows.len() - 1].id);
            }
        }
    }
}

/// Fetching a fresh cursor to exhaustion yields what one large page
/// yields: over one table and one filter, enough fetches of `count` rows
/// give, end to end, exactly the rows of the page that starts at the first
/// row and has room for all, each row once; the fetch after them is empty.
pub proof fn law_fetch_to_exhaustion(
    rows: Seq<AdView>,
    next_id: int,
    f: AdFilterView,
    count: nat,
    k: nat,
    per_page: nat,
)
    requires
        rows_valid(rows, next_id),
        count > 0,
        k * count >= cursor_snapshot(rows, f).len(),
        per_page >= cursor_snapshot(rows, f).len(),
    ensures
        batches(cursor_snapshot(rows, f), 0, count, k) =~= page_rows(rows, f, 0, per_page),
        page_rows(rows, f, 0, per_page) =~= matching(rows, clause_list(f)),
        window(cursor_snapshot(rows, f), cursor_snapshot(rows, f).len(), count).len() == 0,
        forall|i: int, j: int|
            0 <= i < j < page_rows(rows, f, 0, per_page).len() ==> (#[trigger] page_rows(
                rows,
                f,
                0,
                per_page,
            )[i]).id != (#[trigger] page_rows(rows, f, 0, per_page)[j]).id,
{
    let all = cursor_snapshot(rows, f);
    law_batches_are_one_window(all, 0, count, k);
    law_full_window(all, k * count);
    law_full_window(all, per_page);
    law_matching_ids_distinct(rows, next_id, clause_list(f));
}

/// Every row a filter selects is a row of the table that satisfies all of
/// the filter's clauses.
pub proof fn law_matching_rows_match(rows: Seq<AdView>, clauses: Seq<ClauseView>, i: int)
    requires
        0 <= i < matching(rows, clauses).len(),
    ensures
        satisfies(clauses, matching(rows, clauses)[i]),
        rows.contains(matching(rows, clauses)[i]),
    decreases rows.len(),
{
    let before = matching(rows.drop_last(), clauses);
    if i < before.len() {
        law_matching_rows_match(rows.drop_last(), clauses, i);
        let k = choose|k: int| 0 <= k < rows.drop_last().len() && rows.drop_last()[k] == before[i];
        assert(rows[k] == before[i]);
    } else {
        assert(rows[rows.len() - 1] == rows.last());
    }
}

/// Creating an ad and looking it up by the assigned identifier gives back
/// what was created: the one row with that identifier carries the
/// content's fields and the image identifiers in their order.
pub proof fn law_create_then_get(
    rows: Seq<AdView>,
    next_id: int,
    content: AdContentView,
    images: Seq<Seq<char>>,
    now: Timestamp,
)
    requires
        rows_valid(rows, next_id),
        content.price.well_formed(),
    ensures
        ({
            let row = created_row(next_id, content, images, now);
            let after = rows.push(row);
            &&& rows_valid(after, next_id + 1)
            &&& has_id(after, next_id)
            &&& forall|i: int| 0 <= i < after.len() && (#[trigger] after[i]).id == next_id ==> after[i] == row
            &&& row.title == content.title
            &&& row.description == content.description
            &&& row.price == content.price
            &&& row.user_email == content.user_email
            &&& row.user_phone == content.user_phone
            &&& row.top_ad == content.top_ad
            &&& row.images == images
        }),
{
    let row = created_row(next_id, content, images, now);
    let after = rows.push(row);
    assert(after[rows.len() as int].id == next_id);
}

/// Deleting is idempotent: once the row with an identifier is removed, no
/// row carries it, so a second delete removes nothing.
pub proof fn law_delete_twice(rows: Seq<AdView>, next_id: int, k: int)
    requires
        rows_valid(rows, next_id),
        0 <= k < rows.len(),
    ensures
        rows_valid(rows.remove(k), next_id),
        !has_id(rows.remove(k), rows[k].id),
{
    let after = rows.remove(k);
    assert forall|i: int| 0 <= i < after.len() implies (#[trigger] after[i]).id != rows[k].id by {
        if i < k {
            assert(after[i] == rows[i]);
        } else {
            assert(after[i] == rows[i + 1]);
        }
    }
    assert forall|i: int, j: int| 0 <= i < j < after.len() implies (#[trigger] after[i]).id != (
    #[trigger] after[j]).id by {
        let a = if i < k { i } else { i + 1 };
        let b = if j < k { j } else { j + 1 };
        assert(after[i] == rows[a]);
        assert(after[j] == rows[b]);
    }
    assert forall|i: int| 0 <= i < after.len() implies (#[trigger] after[i]).id < next_id
        && after[i].price.well_formed() by {
        let a = if i < k { i } else { i + 1 };
        assert(after[i] == rows[a]);
    }
}

/// Copies up to `count` ads after skipping `offset`.
fn copy_window(ads: &Vec<Ad>, offset: usize, count: usize) -> (out: Vec<Ad>)
    ensures
        ads_view(out@) == window(ads_view(ads@), offset as nat, count as nat),
{
    let len = ads.len();
    let from = if offset <= len {
        offset
    } else {
        len
    };
    let to = if count <= len - from {
        from + count
    } else {
        len
    };
    let mut out: Vec<Ad> = Vec::new();
    let mut i: usize = from;
    while i < to
        invariant
            from <= i <= to <= ads.len(),
            out.len() == i - from,
            forall|j: int| 0 <= j < out.len() ==> out[j]@ == ads[from + j]@,
        decreases to - i,
    {
        out.push(ads[i].duplicate());
        i = i + 1;
    }
    assert(ads_view(out@) =~= window(ads_view(ads@), offset as nat, count as nat));
    out
}

/// An ad repository held in memory.
pub struct MemoryAdRepo {
    rows: Vec<Ad>,
    next_id: i32,
    cursors: Vec<OpenCursor>,
}

impl MemoryAdRepo {
    /// The rows of the table, in insertion order.
    pub closed spec fn rows(&self) -> Seq<AdView> {
        ads_view(self.rows@)
    }

    /// The identifier the next created ad receives.
    pub closed spec fn next_id(&self) -> int {
        self.next_id as int
    }

    /// The open cursors, in the order they were declared.
    pub closed spec fn cursors(&self) -> Seq<CursorView> {
        Seq::new(self.cursors@.len(), |i: int| self.cursors@[i]@)
    }

    /// The repository's invariant.
    pub open spec fn well_formed(&self) -> bool {
        &&& rows_valid(self.rows(), self.next_id())
        &&& cursors_valid(self.cursors())
    }

    /// An empty repository; identifiers start at one.
    pub fn new() -> (repo: MemoryAdRepo)
        ensures
            repo.well_formed(),
            repo.rows().len() == 0,
            repo.cursors().len() == 0,
            repo.next_id() == 1,
    {
        MemoryAdRepo { rows: Vec::new(), next_id: 1, cursors: Vec::new() }
    }

    fn row_index(&self, id: i32) -> (found: Option<usize>)
        ensures
            match found {
                Some(k) => k < self.rows().len() && self.rows()[k as int].id == id,
                None => !has_id(self.rows(), id as int),
            },
    {
        let mut i: usize = 0;
        while i < self.rows.len()
            invariant
                i <= self.rows.len(),
                forall|j: int| 0 <= j < i ==> (#[trigger] self.rows()[j]).id != id,
            decreases self.rows.len() - i,
        {
            if self.rows[i].id == id {
                return Some(i);
            }
            i = i + 1;
        }
        None
    }

    fn cursor_index(&self, name: &String) -> (found: Option<usize>)
        ensures
            match found {
                Some(k) => k < self.cursors().len() && self.cursors()[k as int].name == name@,
                None => !has_cursor(self.cursors(), name@),
            },
    {
        let mut i: usize = 0;
        while i < self.cursors.len()
            invariant
                i <= self.cursors.len(),
                forall|j: int| 0 <= j < i ==> (#[trigger] self.cursors()[j]).name != name@,
            decreases self.cursors.len() - i,
        {
            if self.cursors[i].name == *name {
                return Some(i);
            }
            i = i + 1;
        }
        None
    }

    fn select(&self, clauses: &Vec<Clause>) -> (out: Vec<Ad>)
        requires
            self.well_formed(),
            clauses_valid(clauses_view(clauses@)),
        ensures
            ads_view(out@) == matching(self.rows(), clauses_view(clauses@)),
    {
        let mut out: Vec<Ad> = Vec::new();
        let mut i: usize = 0;
        let ghost rows = self.rows();
        let ghost views = clauses_view(clauses@);
        proof {
            assert(rows.take(0) =~= Seq::<AdView>::empty());
            assert(ads_view(out@) =~= matching(rows.take(0), views));
        }
        while i < self.rows.len()
            invariant
                i <= self.rows.len(),
                self.well_formed(),
                rows == self.rows(),
                views == clauses_view(clauses@),
                clauses_valid(views),
                ads_view(out@) == matching(rows.take(i as int), views),
            decreases self.rows.len() - i,
        {
            proof {
                let upto = rows.take(i + 1);
                assert(upto.drop_last() =~= rows.take(i as int));
                assert(upto.last() == self.rows[i as int]@);
                assert(rows[i as int].price.well_formed());
            }
            let ghost before = ads_view(out@);
            if row_matches(clauses, &self.rows[i]) {
                out.push(self.rows[i].duplicate());
                assert(ads_view(out@) =~= before.push(self.rows[i as int]@));
            }
            i = i + 1;
        }
        proof {
            assert(rows.take(i as int) =~= rows);
        }
        out
    }

    /// Looks an ad up by its identifier; no match is `None`, not an error.
    pub fn get_by_id(&self, id: i32) -> (found: Option<Ad>)
        requires
            self.well_formed(),
        ensures
            match found {
                Some(ad) => ad@.id == id && self.rows().contains(ad@),
                None => !has_id(self.rows(), id as int),
            },
    {
        match self.row_index(id) {
            Some(k) => {
                let ad = self.rows[k].duplicate();
                assert(self.rows()[k as int] == ad@);
                Some(ad)
            },
            None => None,
        }
    }

    /// One page of the filtered ads: the filter's clauses, then skip
    /// `offset` rows and return at most `per_page`.
    pub fn get_page(&self, offset: u32, per_page: u32, filter: &AdFilter) -> (page: Vec<Ad>)
        requires
            self.well_formed(),
            filter_valid(filter@),
        ensures
            ads_view(page@) == page_rows(self.rows(), filter@, offset as nat, per_page as nat),
            page.len() <= per_page,
    {
        let clauses = filter.clauses();
        let selected = self.select(&clauses);
        let page = copy_window(&selected, offset as usize, per_page as usize);
        assert(ads_view(page@).len() == page.len());
        page
    }

    /// Inserts a new ad with status "active" and both timestamps `now`, and
    /// returns the stored row with its assigned identifier. Fails with a
    /// storage error only when the identifiers are used up.
    pub fn create_at(&mut self, ad: AdContent, image_ids: Vec<String>, now: Timestamp) -> (r: Result<
        Ad,
        RepoError,
    >)
        requires
            old(self).well_formed(),
            ad.price.well_formed(),
        ensures
            final(self).well_formed(),
            final(self).cursors() == old(self).cursors(),
            match r {
                Ok(row) => {
                    &&& old(self).next_id() < i32::MAX
                    &&& row@ == created_row(old(self).next_id(), ad@, texts_view(image_ids@), now)
                    &&& final(self).rows() == old(self).rows().push(row@)
                    &&& final(self).next_id() == old(self).next_id() + 1
                },
                Err(e) => {
                    &&& old(self).next_id() == i32::MAX
                    &&& e.kind == ErrorKind::Storage
                    &&& final(self).rows() == old(self).rows()
                    &&& final(self).next_id() == old(self).next_id()
                },
            },
    {
        if self.next_id == i32::MAX {
            return Err(
                RepoError {
                    kind: ErrorKind::Storage,
                    cause: String::from_str("identifier sequence exhausted"),
                },
            );
        }
        let id = self.next_id;
        let row = Ad::from_content(id, ad, image_ids, now);
        let copy = row.duplicate();
        proof {
            law_create_then_get(self.rows(), id as int, ad@, texts_view(image_ids@), now);
        }
        self.rows.push(row);
        self.next_id = id + 1;
        assert(self.rows() =~= old(self).rows().push(copy@));
        assert(self.cursors() =~= old(self).cursors());
        Ok(copy)
    }

    /// Inserts a new ad as [`MemoryAdRepo::create_at`] does, at the time the
    /// clock shows now: the row's two timestamps are equal, whatever the
    /// clock said.
    pub fn create(&mut self, ad: AdContent, image_ids: Vec<String>) -> (r: Result<Ad, RepoError>)
        requires
            old(self).well_formed(),
            ad.price.well_formed(),
        ensures
            final(self).well_formed(),
            final(self).cursors() == old(self).cursors(),
            match r {
                Ok(row) => {
                    &&& old(self).next_id() < i32::MAX
                    &&& row@ == created_row(
                        old(self).next_id(),
                        ad@,
                        texts_view(image_ids@),
                        row.created_at,
                    )
                    &&& final(self).rows() == old(self).rows().push(row@)
                    &&& final(self).next_id() == old(self).next_id() + 1
                },
                Err(e) => {
                    &&& old(self).next_id() == i32::MAX
                    &&& e.kind == ErrorKind::Storage
                    &&& final(self).rows() == old(self).rows()
                    &&& final(self).next_id() == old(self).next_id()
                },
            },
    {
        let now = current_time();
        self.create_at(ad, image_ids, now)
    }

    /// Replaces every settable column of the row `id` with the values of
    /// `ad`; the identifier itself never changes. Fails with a storage
    /// error when no row has the identifier.
    pub fn update(&mut self, id: i32, ad: Ad) -> (r: Result<Ad, RepoError>)
        requires
            old(self).well_formed(),
            ad.price.well_formed(),
        ensures
            final(self).well_formed(),
            final(self).cursors() == old(self).cursors(),
            final(self).next_id() == old(self).next_id(),
            match r {
                Ok(row) => {
                    &&& row@ == (AdView { id: id as int, ..ad@ })
                    &&& exists|k: int|
                        0 <= k < old(self).rows().len() && (#[trigger] old(self).rows()[k]).id == id
                            && final(self).rows() == old(self).rows().update(k, row@)
                },
                Err(e) => {
                    &&& !has_id(old(self).rows(), id as int)
                    &&& e.kind == ErrorKind::Storage
                    &&& final(self).rows() == old(self).rows()
                },
            },
    {
        match self.row_index(id) {
            Some(k) => {
                let mut stored = ad;
                stored.id = id;
                let copy = stored.duplicate();
                let _ = self.rows.remove(k);
                self.rows.insert(k, stored);
                proof {
                    let before = old(self).rows();
                    let after = self.rows();
                    assert(after =~= before.update(k as int, copy@));
                    assert(self.cursors() =~= old(self).cursors());
                    assert forall|i: int, j: int| 0 <= i < j < after.len() implies (
                    #[trigger] after[i]).id != (#[trigger] after[j]).id by {
                        assert(after[i].id == before[i].id);
                        assert(after[j].id == before[j].id);
                    }
                    assert forall|i: int| 0 <= i < after.len() implies (#[trigger] after[i]).id
                        < self.next_id() && after[i].price.well_formed() by {
                        assert(after[i].id == before[i].id);
                        if i != k {
                            assert(after[i] == before[i]);
                        }
                    }
                }
                Ok(copy)
            },
            None => Err(
                RepoError { kind: ErrorKind::Storage, cause: String::from_str("no such ad") },
            ),
        }
    }

    /// Removes the row `id` and returns how many rows were removed: one, or
    /// zero when no row has the identifier, which is no error.
    pub fn delete(&mut self, id: i32) -> (count: usize)
        requires
            old(self).well_formed(),
        ensures
            final(self).well_formed(),
            final(self).cursors() == old(self).cursors(),
            final(self).next_id() == old(self).next_id(),
            !has_id(final(self).rows(), id as int),
            if has_id(old(self).rows(), id as int) {
                &&& count == 1
                &&& exists|k: int|
                    0 <= k < old(self).rows().len() && (#[trigger] old(self).rows()[k]).id == id
                        && final(self).rows() == old(self).rows().remove(k)
            } else {
                count == 0 && final(self).rows() == old(self).rows()
            },
    {
        match self.row_index(id) {
            Some(k) => {
                proof {
                    law_delete_twice(self.rows(), self.next_id(), k as int);
                }
                let _ = self.rows.remove(k);
                assert(self.rows() =~= old(self).rows().remove(k as int));
                assert(self.cursors() =~= old(self).cursors());
                1
            },
            None => 0,
        }
    }

    /// Declares a cursor under `name` over the rows that match `filter`
    /// now. Fails with a cursor creation error exactly when a cursor of
    /// that name is already open.
    pub fn declare_cursor(&mut self, name: String, filter: &AdFilter) -> (r: Result<(), RepoError>)
        requires
            old(self).well_formed(),
            filter_valid(filter@),
        ensures
            final(self).well_formed(),
            final(self).rows() == old(self).rows(),
            final(self).next_id() == old(self).next_id(),
            match r {
                Ok(_) => {
                    &&& !has_cursor(old(self).cursors(), name@)
                    &&& final(self).cursors() == old(self).cursors().push(
                        CursorView {
                            name: name@,
                            rows: cursor_snapshot(old(self).rows(), filter@),
                            position: 0,
                        },
                    )
                },
                Err(e) => {
                    &&& has_cursor(old(self).cursors(), name@)
                    &&& e.kind == ErrorKind::CursorCreation
                    &&& final(self).cursors() == old(self).cursors()
                },
            },
    {
        match self.cursor_index(&name) {
            Some(k) => Err(
                RepoError {
                    kind: ErrorKind::CursorCreation,
                    cause: String::from_str("cursor already exists"),
                },
            ),
            None => {
                let clauses = filter.clauses();
                let rows = self.select(&clauses);
                let ghost added = CursorView {
                    name: name@,
                    rows: cursor_snapshot(self.rows(), filter@),
                    position: 0,
                };
                self.cursors.push(OpenCursor { name, rows, position: 0 });
                proof {
                    let before = old(self).cursors();
                    let after = self.cursors();
                    assert(after =~= before.push(added));
                    assert forall|i: int, j: int| 0 <= i < j < after.len() implies (
                    #[trigger] after[i]).name != (#[trigger] after[j]).name by {
                        if j < before.len() {
                            assert(after[i] == before[i] && after[j] == before[j]);
                        } else {
                            assert(after[i] == before[i]);
                        }
                    }
                    assert forall|i: int| 0 <= i < after.len() implies (
                    #[trigger] after[i]).position <= after[i].rows.len() by {
                        if i < before.len() {
                            assert(after[i] == before[i]);
                        }
                    }
                }
                Ok(())
            },
        }
    }

    /// Declares a cursor over `filter` under a freshly generated name and
    /// returns the name. The name is random; the declaration fails, with a
    /// cursor creation error and changing nothing, only where an open
    /// cursor already carries a generated name that the draw can repeat.
    /// With no such cursor open it always succeeds.
    pub fn new_cursor(&mut self, filter: &AdFilter) -> (r: Result<String, RepoError>)
        requires
            old(self).well_formed(),
            filter_valid(filter@),
        ensures
            final(self).well_formed(),
            final(self).rows() == old(self).rows(),
            final(self).next_id() == old(self).next_id(),
            match r {
                Ok(name) => {
                    &&& is_cursor_name(name@)
                    &&& !has_cursor(old(self).cursors(), name@)
                    &&& final(self).cursors() == old(self).cursors().push(
                        CursorView {
                            name: name@,
                            rows: cursor_snapshot(old(self).rows(), filter@),
                            position: 0,
                        },
                    )
                },
                Err(e) => {
                    &&& e.kind == ErrorKind::CursorCreation
                    &&& final(self).cursors() == old(self).cursors()
                    &&& exists|i: int|
                        0 <= i < old(self).cursors().len() && is_cursor_name(
                            #[trigger] old(self).cursors()[i].name,
                        )
                },
            },
    {
        let name = new_cursor_name();
        let returned = name.clone();
        match self.declare_cursor(name, filter) {
            Ok(_) => Ok(returned),
            Err(e) => {
                proof {
                    let before = old(self).cursors();
                    let i = choose|i: int|
                        0 <= i < before.len() && (#[trigger] before[i]).name == returned@;
                    assert(is_cursor_name(before[i].name));
                }
                Err(e)
            },
        }
    }

    /// Fetches a cursor to exhaustion: batches of up to `count` rows are
    /// fetched until one comes back empty, and returned end to end. The
    /// result is every row from the cursor's position to its end, each
    /// once, and the cursor then stands at its end. With a count of zero
    /// the first batch is already empty: nothing is returned and the
    /// cursor does not move. Fails with a cursor fetch error exactly when
    /// no open cursor has the name.
    pub fn fetch_all(&mut self, cursor_name: String, count: u8) -> (r: Result<Vec<Ad>, RepoError>)
        requires
            old(self).well_formed(),
        ensures
            final(self).well_formed(),
            final(self).rows() == old(self).rows(),
            final(self).next_id() == old(self).next_id(),
            match r {
                Ok(all) => exists|k: int|
                    {
                        &&& 0 <= k < old(self).cursors().len()
                        &&& (#[trigger] old(self).cursors()[k]).name == cursor_name@
                        &&& ads_view(all@) == window(
                            old(self).cursors()[k].rows,
                            old(self).cursors()[k].position,
                            if count == 0 {
                                0
                            } else {
                                old(self).cursors()[k].rows.len()
                            },
                        )
                        &&& final(self).cursors() == old(self).cursors().update(
                            k,
                            CursorView {
                                position: (old(self).cursors()[k].position + all.len()) as nat,
                                ..old(self).cursors()[k]
                            },
                        )
                    },
                Err(e) => {
                    &&& !has_cursor(old(self).cursors(), cursor_name@)
                    &&& e.kind == ErrorKind::CursorFetch
                    &&& final(self).cursors() == old(self).cursors()
                },
            },
    {
        let found = self.cursor_index(&cursor_name);
        if found.is_none() {
            return Err(
                RepoError {
                    kind: ErrorKind::CursorFetch,
                    cause: String::from_str("no such cursor"),
                },
            );
        }
        let ghost k = found.unwrap() as int;
        let ghost start = self.cursors()[k];
        let mut all: Vec<Ad> = Vec::new();
        proof {
            assert(start.position <= start.rows.len());
            assert(ads_view(all@) =~= start.rows.subrange(
                start.position as int,
                start.position as int,
            ));
            assert(self.cursors() =~= old(self).cursors().update(k, start));
        }
        loop
            invariant
                self.well_formed(),
                self.rows() == old(self).rows(),
                self.next_id() == old(self).next_id(),
                0 <= k < old(self).cursors().len(),
                start == old(self).cursors()[k],
                start.name == cursor_name@,
                start.position + all.len() <= start.rows.len(),
                count == 0 ==> all.len() == 0,
                ads_view(all@) == start.rows.subrange(
                    start.position as int,
                    start.position + all.len(),
                ),
                self.cursors() == old(self).cursors().update(
                    k,
                    CursorView { position: (start.position + all.len()) as nat, ..start },
                ),
            ensures
                count > 0 ==> start.position + all.len() == start.rows.len(),
            decreases start.rows.len() - (start.position + all.len()),
        {
            let ghost before = self.cursors();
            let ghost fetched = ads_view(all@);
            assert(before[k].name == cursor_name@);
            match self.fetch_from_cursor(cursor_name.clone(), count) {
                Ok(batch) => {
                    let mut batch = batch;
                    proof {
                        let j = choose|j: int|
                            {
                                &&& 0 <= j < before.len()
                                &&& (#[trigger] before[j]).name == cursor_name@
                                &&& ads_view(batch@) == window(
                                    before[j].rows,
                                    before[j].position,
                                    count as nat,
                                )
                                &&& self.cursors() == before.update(
                                    j,
                                    CursorView {
                                        position: (before[j].position + batch.len()) as nat,
                                        ..before[j]
                                    },
                                )
                            };
                        assert(j == k) by {
                            if j < k {
                                assert(before[j].name != before[k].name);
                            } else if k < j {
                                assert(before[k].name != before[j].name);
                            }
                        }
                        assert(ads_view(batch@).len() == batch.len());
                        assert(self.cursors() =~= old(self).cursors().update(
                            k,
                            CursorView {
                                position: (start.position + all.len() + batch.len()) as nat,
                                ..start
                            },
                        ));
                    }
                    if batch.len() == 0 {
                        break ;
                    }
                    all.append(&mut batch);
                    proof {
                        assert(ads_view(all@) =~= fetched + window(
                            start.rows,
                            (start.position + fetched.len()) as nat,
                            count as nat,
                        ));
                        assert(ads_view(all@) =~= start.rows.subrange(
                            start.position as int,
                            start.position + all.len(),
                        ));
                    }
                },
                Err(e) => {
                    proof {
                        assert(has_cursor(before, cursor_name@));
                    }
                    return Err(e);
                },
            }
        }
        proof {
            assert(ads_view(all@) =~= window(
                start.rows,
                start.position,
                if count == 0 {
                    0
                } else {
                    start.rows.len()
                },
            ));
        }
        Ok(all)
    }

    /// Releases the cursor `cursor_name`. Returns whether it was open;
    /// afterwards no cursor has the name, and the others are as before.
    pub fn close_cursor(&mut self, cursor_name: String) -> (closed: bool)
        requires
            old(self).well_formed(),
        ensures
            final(self).well_formed(),
            final(self).rows() == old(self).rows(),
            final(self).next_id() == old(self).next_id(),
            closed == has_cursor(old(self).cursors(), cursor_name@),
            !has_cursor(final(self).cursors(), cursor_name@),
            if closed {
                exists|k: int|
                    0 <= k < old(self).cursors().len() && (#[trigger] old(self).cursors()[k]).name
                        == cursor_name@ && final(self).cursors() == old(self).cursors().remove(k)
            } else {
                final(self).cursors() == old(self).cursors()
            },
    {
        match self.cursor_index(&cursor_name) {
            Some(k) => {
                let ghost before = self.cursors();
                let _ = self.cursors.remove(k);
                proof {
                    let after = self.cursors();
                    assert(after =~= before.remove(k as int));
                    assert forall|i: int| 0 <= i < after.len() implies (#[trigger] after[i]).name
                        != cursor_name@ && after[i].position <= after[i].rows.len() by {
                        let a = if i < k { i } else { i + 1 };
                        assert(after[i] == before[a]);
                    }
                    assert forall|i: int, j: int| 0 <= i < j < after.len() implies (
                    #[trigger] after[i]).name != (#[trigger] after[j]).name by {
                        let a = if i < k { i } else { i + 1 };
                        let b = if j < k { j } else { j + 1 };
                        assert(after[i] == before[a]);
                        assert(after[j] == before[b]);
                    }
                }
                true
            },
            None => false,
        }
    }

    /// Fetches the next rows of a cursor, at most `count`, and advances it
    /// past them. At the end of the cursor the batch is short or empty,
    /// which is no error. Fails with a cursor fetch error exactly when no
    /// open cursor has the name.
    pub fn fetch_from_cursor(&mut self, cursor_name: String, count: u8) -> (r: Result<
        Vec<Ad>,
        RepoError,
    >)
        requires
            old(self).well_formed(),
        ensures
            final(self).well_formed(),
            final(self).rows() == old(self).rows(),
            final(self).next_id() == old(self).next_id(),
            match r {
                Ok(batch) => exists|k: int|
                    {
                        &&& 0 <= k < old(self).cursors().len()
                        &&& (#[trigger] old(self).cursors()[k]).name == cursor_name@
                        &&& ads_view(batch@) == window(
                            old(self).cursors()[k].rows,
                            old(self).cursors()[k].position,
                            count as nat,
                        )
                        &&& final(self).cursors() == old(self).cursors().update(
                            k,
                            CursorView {
                                position: (old(self).cursors()[k].position + batch.len()) as nat,
                                ..old(self).cursors()[k]
                            },
                        )
                    },
                Err(e) => {
                    &&& !has_cursor(old(self).cursors(), cursor_name@)
                    &&& e.kind == ErrorKind::CursorFetch
                    &&& final(self).cursors() == old(self).cursors()
                },
            },
    {
        match self.cursor_index(&cursor_name) {
            Some(k) => {
                let cursor = self.cursors.remove(k);
                let ghost before = old(self).cursors();
                assert(cursor@ == before[k as int]);
                let batch = copy_window(&cursor.rows, cursor.position, count as usize);
                assert(ads_view(batch@).len() == batch.len());
                assert(before[k as int].position <= before[k as int].rows.len());
                assert(cursor.position + batch.len() <= cursor.rows.len());
                let advanced = OpenCursor {
                    name: cursor.name,
                    rows: cursor.rows,
                    position: cursor.position + batch.len(),
                };
                let ghost moved = advanced@;
                self.cursors.insert(k, advanced);
                proof {
                    let after = self.cursors();
                    assert(after =~= before.update(k as int, moved));
                    assert forall|i: int, j: int| 0 <= i < j < after.len() implies (
                    #[trigger] after[i]).name != (#[trigger] after[j]).name by {
                        assert(after[i].name == before[i].name);
                        assert(after[j].name == before[j].name);
                    }
                    assert forall|i: int| 0 <= i < after.len() implies (
                    #[trigger] after[i]).position <= after[i].rows.len() by {
                        if i != k {
                            assert(after[i] == before[i]);
                        }
                    }
                }
                Ok(batch)
            },
            None => Err(
                RepoError {
                    kind: ErrorKind::CursorFetch,
                    cause: String::from_str("no such cursor"),
                },
            ),
        }
    }
}

} // verus!
