//! The query engine: given optional conjunctive filter criteria and a
//! 1-based page number, the matching slice of the event log in insertion
//! order, each record annotated with its subject's display name through one
//! batched identity lookup.

use vstd::prelude::*;
use vstd::math::min;
use std::collections::HashMap;
use crate::identity::IdentityStore;
use crate::record::EventRecord;
use crate::store::LogStore;

verus! {

broadcast use vstd::std_specs::hash::group_hash_axioms, vstd::seq_lib::group_filter_ensures;

/// Records per page: a fixed window of the ordered result set.
pub const PAGE_SIZE: u64 = 15;

/// How a read request can fail. A missing identity is not here: it resolves
/// to a placeholder and never fails a query.
#[derive(Debug, PartialEq, Eq, Structural, Clone, Copy)]
pub enum QueryError {
    /// The page number was less than 1. Never silently clamped.
    InvalidPageNumber,
    /// The storage layer failed; the caller gets no partial page.
    StorageUnavailable,
}

/// Optional filter criteria; absence means no constraint on that field.
/// All supplied criteria apply together (logical AND). The two time bounds
/// select an interval: strictly before `time_lt`, strictly after `time_mt`.
pub struct Filters {
    pub user_id: Option<u64>,
    pub status: Option<String>,
    pub activity: Option<String>,
    pub activity_description: Option<String>,
    pub time_lt: Option<u64>,
    pub time_mt: Option<u64>,
}

impl Filters {
    /// No constraint on any field: every record matches.
    pub fn none() -> (f: Filters)
        ensures
            f.user_id is None,
            f.status is None,
            f.activity is None,
            f.activity_description is None,
            f.time_lt is None,
            f.time_mt is None,
    {
        Filters {
            user_id: None,
            status: None,
            activity: None,
            activity_description: None,
            time_lt: None,
            time_mt: None,
        }
    }
}

/// Whether `r` satisfies every supplied criterion of `f`.
pub open spec fn record_matches(r: EventRecord, f: Filters) -> bool {
    &&& (f.user_id matches Some(u) ==> r.user_id == u)
    &&& (f.status matches Some(s) ==> r.status@ == s@)
    &&& (f.activity matches Some(a) ==> r.activity@ == a@)
    &&& (f.activity_description matches Some(d) ==> r.activity_description@ == d@)
    &&& (f.time_lt matches Some(t) ==> r.time < t)
    &&& (f.time_mt matches Some(t) ==> r.time > t)
}

/// The matching predicate of `f`, as a value, so that every use of the
/// filter speaks of one and the same function.
pub open spec fn filter_pred(f: Filters) -> spec_fn(EventRecord) -> bool {
    |r: EventRecord| record_matches(r, f)
}

/// The subsequence of `records` matching `f`, in unchanged order.
pub open spec fn matching(records: Seq<EventRecord>, f: Filters) -> Seq<EventRecord> {
    records.filter(filter_pred(f))
}

/// The start of page `page` within the ordered result set.
pub open spec fn page_offset(page: u64) -> int {
    (page - 1) * (PAGE_SIZE as int)
}

/// The window of page `page` over the ordered matching set `m`: up to
/// `PAGE_SIZE` records starting at `(page - 1) * PAGE_SIZE`, fewer on the
/// last page, none past the end.
pub open spec fn page_slice(m: Seq<EventRecord>, page: u64) -> Seq<EventRecord>
    recommends
        page >= 1,
{
    m.subrange(min(page_offset(page), m.len() as int), min(
        page_offset(page) + PAGE_SIZE as int,
        m.len() as int,
    ))
}

/// Whether `r` satisfies every supplied criterion of `f`, executably.
pub fn matches_filters(r: &EventRecord, f: &Filters) -> (b: bool)
    ensures
        b == record_matches(*r, *f),
{
    if let Some(u) = f.user_id {
        if r.user_id != u {
            return false;
        }
    }
    if let Some(s) = &f.status {
        if !(r.status == *s) {
            return false;
        }
    }
    if let Some(a) = &f.activity {
        if !(r.activity == *a) {
            return false;
        }
    }
    if let Some(d) = &f.activity_description {
        if !(r.activity_description == *d) {
            return false;
        }
    }
    if let Some(t) = f.time_lt {
        if !(r.time < t) {
            return false;
        }
    }
    if let Some(t) = f.time_mt {
        if !(r.time > t) {
            return false;
        }
    }
    true
}

/// The records of `records` matching `f`, in unchanged order.
fn filter_records(records: &Vec<EventRecord>, f: &Filters) -> (out: Vec<EventRecord>)
    ensures
        out@ == matching(records@, *f),
{
    let mut out: Vec<EventRecord> = Vec::new();
    let n = records.len();
    let mut i: usize = 0;
    proof {
        assert(records@.subrange(0, 0) =~= Seq::<EventRecord>::empty());
        reveal(Seq::filter);
    }
    while i < n
        invariant
            n == records@.len(),
            0 <= i <= n,
            out@ == matching(records@.subrange(0, i as int), *f),
        decreases n - i,
    {
        let keep = matches_filters(&records[i], f);
        proof {
            reveal(Seq::filter);
            let pre = records@.subrange(0, i as int);
            let post = records@.subrange(0, (i + 1) as int);
            assert(post.drop_last() =~= pre);
            assert(post.last() == records@[i as int]);
        }
        if keep {
            out.push(records[i].duplicate());
        }
        i += 1;
    }
    proof {
        assert(records@.subrange(0, n as int) =~= records@);
    }
    out
}

/// Copy the window `[start, end)` of `v`.
fn copy_range(v: &Vec<EventRecord>, start: usize, end: usize) -> (out: Vec<EventRecord>)
    requires
        start <= end <= v@.len(),
    ensures
        out@ == v@.subrange(start as int, end as int),
{
    let mut out: Vec<EventRecord> = Vec::new();
    let mut j: usize = start;
    proof {
        assert(v@.subrange(start as int, start as int) =~= Seq::<EventRecord>::empty());
    }
    while j < end
        invariant
            start <= j <= end <= v@.len(),
            out@ == v@.subrange(start as int, j as int),
        decreases end - j,
    {
        out.push(v[j].duplicate());
        proof {
            assert(v@.subrange(start as int, (j + 1) as int) =~= v@.subrange(
                start as int,
                j as int,
            ).push(v@[j as int]));
        }
        j += 1;
    }
    out
}

/// The page `page` (1-based) of the records of `records` matching `f`, in
/// insertion order. Page numbers below 1 are invalid input; a window past
/// the end of the matching set is an empty page, not an error.
pub fn select_page(records: &Vec<EventRecord>, f: &Filters, page: u64) -> (r: Result<
    Vec<EventRecord>,
    QueryError,
>)
    ensures
        page == 0 <==> r is Err,
        page == 0 ==> r == Result::<Vec<EventRecord>, QueryError>::Err(
            QueryError::InvalidPageNumber,
        ),
        page >= 1 ==> (r matches Ok(v) && v@ == page_slice(matching(records@, *f), page)),
{
    if page == 0 {
        return Err(QueryError::InvalidPageNumber);
    }
    let filtered = filter_records(records, f);
    let len = filtered.len();
    let ghost m = matching(records@, *f);
    match (page - 1).checked_mul(PAGE_SIZE) {
        None => {
            proof {
                assert(page_offset(page) > u64::MAX);
                assert(min(page_offset(page), m.len() as int) == m.len() as int);
                assert(page_slice(m, page) =~= Seq::<EventRecord>::empty());
            }
            Ok(Vec::new())
        },
        Some(off) => {
            if off >= len as u64 {
                proof {
                    assert(page_offset(page) >= m.len());
                    assert(page_slice(m, page) =~= Seq::<EventRecord>::empty());
                }
                Ok(Vec::new())
            } else {
                let start = off as usize;
                let end = if len - start > PAGE_SIZE as usize {
                    start + PAGE_SIZE as usize
                } else {
                    len
                };
                let out = copy_range(&filtered, start, end);
                proof {
                    assert(min(page_offset(page), m.len() as int) == start as int);
                    assert(min(page_offset(page) + PAGE_SIZE as int, m.len() as int)
                        == end as int);
                }
                Ok(out)
            }
        },
    }
}

/// Pagination law: page `page` sits at offset `(page - 1) * PAGE_SIZE` of
/// the matching set, and together with page `page + 1` it covers a
/// contiguous stretch with no record skipped or written twice across the
/// boundary: the two pages, concatenated, are exactly the records of the
/// matching set from the first page's offset to the end of the second
/// page's window.
pub proof fn lemma_pages_partition(m: Seq<EventRecord>, page: u64)
    requires
        1 <= page < u64::MAX,
    ensures
        forall|i: int|
            page_offset(page) <= i < page_offset(page) + PAGE_SIZE as int && i < m.len()
                ==> page_slice(m, page)[i - page_offset(page)] == m[i],
        page_slice(m, page) + page_slice(m, (page + 1) as u64) == m.subrange(
            min(page_offset(page), m.len() as int),
            min(page_offset(page) + 2 * (PAGE_SIZE as int), m.len() as int),
        ),
{
    assert(page_offset((page + 1) as u64) == page_offset(page) + PAGE_SIZE as int);
    assert(page_slice(m, page) + page_slice(m, (page + 1) as u64) =~= m.subrange(
        min(page_offset(page), m.len() as int),
        min(page_offset(page) + 2 * (PAGE_SIZE as int), m.len() as int),
    ));
}

/// Filter correctness law: every record of a returned page satisfies every
/// supplied criterion; no record that fails one ever appears in a page.
pub proof fn lemma_page_filter_correct(records: Seq<EventRecord>, f: Filters, page: u64, i: int)
    requires
        page >= 1,
        0 <= i < page_slice(matching(records, f), page).len(),
    ensures
        record_matches(page_slice(matching(records, f), page)[i], f),
{
    let m = matching(records, f);
    let off = min(page_offset(page), m.len() as int);
    assert(page_slice(m, page)[i] == m[off + i]);
    records.lemma_filter_pred(filter_pred(f), off + i);
}

/// The subject ids of the records of `page`, in page order.
fn page_subjects(page: &Vec<EventRecord>) -> (ids: Vec<u64>)
    ensures
        ids@.len() == page@.len(),
        forall|j: int| 0 <= j < page@.len() ==> ids@[j] == (#[trigger] page@[j]).user_id,
{
    let mut ids: Vec<u64> = Vec::new();
    let n = page.len();
    let mut i: usize = 0;
    while i < n
        invariant
            n == page@.len(),
            0 <= i <= n,
            ids@.len() == i,
            forall|j: int| 0 <= j < i ==> ids@[j] == (#[trigger] page@[j]).user_id,
        decreases n - i,
    {
        ids.push(page[i].user_id);
        i += 1;
    }
    ids
}

/// The full read path: the requested page of the log filtered by `f`, each
/// record annotated with the display name its subject resolves to at query
/// time, through one batched lookup covering the whole page. Read-only:
/// neither store changes.
pub fn query(store: &LogStore, identities: &IdentityStore, f: &Filters, page: u64) -> (r: Result<
    Vec<(EventRecord, String)>,
    QueryError,
>)
    ensures
        page == 0 <==> r is Err,
        page == 0 ==> r == Result::<Vec<(EventRecord, String)>, QueryError>::Err(
            QueryError::InvalidPageNumber,
        ),
        page >= 1 ==> (r matches Ok(v) && {
            let slice = page_slice(matching(store.log(), *f), page);
            &&& v@.len() == slice.len()
            &&& forall|i: int|
                0 <= i < slice.len() ==> (#[trigger] v@[i]).0 == slice[i] && v@[i].1@
                    == identities.resolved(slice[i].user_id)
        }),
{
    let page_records = match select_page(store.records(), f, page) {
        Ok(v) => v,
        Err(e) => {
            return Err(e);
        },
    };
    let ids = page_subjects(&page_records);
    let names = identities.get_usernames(&ids);
    let ghost slice = page_slice(matching(store.log(), *f), page);
    let mut out: Vec<(EventRecord, String)> = Vec::new();
    let n = page_records.len();
    let mut i: usize = 0;
    while i < n
        invariant
            n == page_records@.len(),
            0 <= i <= n,
            page_records@ == slice,
            out@.len() == i,
            ids@.len() == n,
            forall|j: int| 0 <= j < n ==> ids@[j] == (#[trigger] page_records@[j]).user_id,
            forall|id: u64| #[trigger] names@.contains_key(id) <==> ids@.contains(id),
            forall|id: u64| ids@.contains(id) ==> (#[trigger] names@[id])@ == identities.resolved(
                id,
            ),
            forall|j: int|
                0 <= j < i ==> (#[trigger] out@[j]).0 == slice[j] && out@[j].1@
                    == identities.resolved(slice[j].user_id),
        decreases n - i,
    {
        let rec = page_records[i].duplicate();
        proof {
            assert(ids@[i as int] == rec.user_id);
            assert(ids@.contains(rec.user_id));
        }
        match names.get(&rec.user_id) {
            Some(name) => {
                let name = name.clone();
                out.push((rec, name));
            },
            None => {
                proof {
                    assert(names@.contains_key(rec.user_id));
                    assert(false);
                }
                return Err(QueryError::StorageUnavailable);
            },
        }
        i += 1;
    }
    Ok(out)
}

} // verus!
