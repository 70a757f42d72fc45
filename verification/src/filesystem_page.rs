//! The filesystem page of the GUI: its statistics, read from influxdb, and the
//! targets of the filesystem, by kind.

use crate::name_order::{names_in_order, sort_targets_by_name, sorted_by_name};
use crate::wire::{Target, TargetKind};
use vstd::prelude::*;

verus! {

/// The usage statistics of a filesystem.
#[derive(Debug, Default, Clone, Copy, PartialEq)]
pub struct Stats {
    pub bytes_total: Option<u64>,
    pub bytes_free: Option<u64>,
    pub bytes_avail: Option<u64>,
    pub files_total: Option<u64>,
    pub files_free: Option<u64>,
    pub clients: Option<u64>,
}

/// One row of statistics: a time, then bytes total, free and available, files total
/// and free, and connected clients.
pub type StatsTuple = (String, Option<u64>, Option<u64>, Option<u64>, Option<u64>, Option<u64>, Option<u64>);

/// One series of a query result.
#[derive(Debug)]
pub struct InfluxSeries {
    pub values: Vec<StatsTuple>,
}

/// The result of one statement of a query.
#[derive(Debug)]
pub struct InfluxResult {
    pub series: Option<Vec<InfluxSeries>>,
}

/// The results of a query.
#[derive(Debug)]
pub struct InfluxResponse {
    pub results: Vec<InfluxResult>,
}

/// The statistics query up to the filesystem name in its object storage targets clause.
pub const STATS_QUERY_HEAD: &'static str = "SELECT SUM(b_total), SUM(b_free), SUM(b_avail),\n                    SUM(f_total), SUM(f_free),\n                    SUM(clients)\n               FROM (SELECT LAST(bytes_total) AS b_total\n                          , LAST(bytes_free) AS b_free\n                          , LAST(bytes_avail) AS b_avail\n                          , LAST(files_total) AS f_total\n                          , LAST(files_free) AS f_free\n                      FROM target\n                      WHERE \"kind\" = 'OST' AND \"fs\" = '";

/// The statistics query between the two places where the filesystem name stands.
pub const STATS_QUERY_MIDDLE: &'static str = "'\n                      GROUP BY target)\n                   , (SELECT LAST(connected_clients) AS clients\n                      FROM target\n                      WHERE \"fs\"='";

/// The statistics query after the filesystem name in its metadata targets clause.
pub const STATS_QUERY_TAIL: &'static str = "' AND \"kind\"='MDT'\n                      GROUP BY target)";

/// The path and parameters under which the statistics query goes to influxdb.
pub const STATS_URL_PREFIX: &'static str = "/influx?db=iml_stats&q=";

/// The influxdb query of a filesystem's statistics: the sums, over its object storage
/// targets, of their last byte and file counts, and, over its metadata targets, of their
/// last count of connected clients.
pub open spec fn stats_query(fs_name: Seq<char>) -> Seq<char> {
    STATS_QUERY_HEAD@ + fs_name + STATS_QUERY_MIDDLE@ + fs_name + STATS_QUERY_TAIL@
}

/// The URL from which the page fetches the statistics of the filesystem `fs_name`.
pub fn stats_url(fs_name: &str) -> (r: String)
    ensures
        r@ == STATS_URL_PREFIX@ + stats_query(fs_name@),
{
    let mut s = crate::text::concat(STATS_URL_PREFIX, STATS_QUERY_HEAD);
    s.append(fs_name);
    s.append(STATS_QUERY_MIDDLE);
    s.append(fs_name);
    s.append(STATS_QUERY_TAIL);
    s
}

/// The first row of the first series of the first result, if there is one.
pub open spec fn first_stats_row(results: Seq<InfluxResult>) -> Option<StatsTuple> {
    if results.len() > 0 && results[0].series is Some && results[0].series->Some_0@.len() > 0
        && results[0].series->Some_0@[0].values@.len() > 0 {
        Some(results[0].series->Some_0@[0].values@[0])
    } else {
        None
    }
}

/// The statistics after a response: those of its first row, or the former ones when it
/// has none.
pub open spec fn stats_after(old: Stats, results: Seq<InfluxResult>) -> Stats {
    match first_stats_row(results) {
        Some(row) => Stats {
            bytes_total: row.1,
            bytes_free: row.2,
            bytes_avail: row.3,
            files_total: row.4,
            files_free: row.5,
            clients: row.6,
        },
        None => old,
    }
}

/// The statistics after a response are read from the first row of its first series, column
/// by column: time, bytes total, bytes free, bytes available, files total, files free, then
/// connected clients; a response without rows leaves them as they were.
pub proof fn lemma_stats_columns(old: Stats, results: Seq<InfluxResult>)
    ensures
        ({
            let s = stats_after(old, results);
            if results.len() > 0 && results[0].series is Some && results[0].series->Some_0@.len() > 0
                && results[0].series->Some_0@[0].values@.len() > 0 {
                let row = results[0].series->Some_0@[0].values@[0];
                &&& s.bytes_total == row.1
                &&& s.bytes_free == row.2
                &&& s.bytes_avail == row.3
                &&& s.files_total == row.4
                &&& s.files_free == row.5
                &&& s.clients == row.6
            } else {
                s == old
            }
        }),
{
}

/// Takes the statistics of a response.
pub fn update_stats(stats: &mut Stats, response: &InfluxResponse)
    ensures
        *final(stats) == stats_after(*old(stats), response.results@),
{
    if response.results.len() == 0 {
        return;
    }
    match &response.results[0].series {
        None => {},
        Some(series) => {
            if series.len() > 0 && series[0].values.len() > 0 {
                let row = &series[0].values[0];
                *stats = Stats {
                    bytes_total: row.1,
                    bytes_free: row.2,
                    bytes_avail: row.3,
                    files_total: row.4,
                    files_free: row.5,
                    clients: row.6,
                };
            }
        },
    }
}

/// The text of the number of connected clients: the number, or `---` when unknown.
pub fn clients_text(cc: Option<u64>) -> (r: String)
    ensures
        cc is None ==> r@ == "---"@,
        cc matches Some(c) ==> r@ == crate::text::decimal(c as nat),
{
    match cc {
        Some(c) => crate::text::decimal_string(c),
        None => String::from_str("---"),
    }
}

/// The part of a total that is not free, or none of it when more is free than the total.
pub open spec fn used_of(free: u64, total: u64) -> u64 {
    if total >= free {
        (total - free) as u64
    } else {
        0
    }
}

/// What the page shows of the space of a filesystem: the bytes used and the bytes
/// available, when the total, free and available byte counts are all known.
pub fn space_used(free: Option<u64>, total: Option<u64>, avail: Option<u64>) -> (r: Option<(u64, u64)>)
    ensures
        r == (match (free, total, avail) {
            (Some(f), Some(t), Some(a)) => Some((used_of(f, t), a)),
            _ => None,
        }),
{
    match (free, total, avail) {
        (Some(f), Some(t), Some(a)) => Some((t.saturating_sub(f), a)),
        _ => None,
    }
}

/// What the page shows of the files of a filesystem: the files created and the most
/// that can be, when the total and free file counts are both known.
pub fn files_created(free: Option<u64>, total: Option<u64>) -> (r: Option<(u64, u64)>)
    ensures
        r == (match (free, total) {
            (Some(f), Some(t)) => Some((used_of(f, t), t)),
            _ => None,
        }),
{
    match (free, total) {
        (Some(f), Some(t)) => Some((t.saturating_sub(f), t)),
        _ => None,
    }
}

/// The target belongs to the filesystem `fs_id`, by its own filesystem id or by one of
/// the filesystems it serves.
pub open spec fn belongs_to_fs<T>(fs_id: u32, t: Target<T>) -> bool {
    t.filesystem_id == Some(fs_id) || (t.filesystems matches Some(fs) && exists|i: int|
        0 <= i < fs@.len() && #[trigger] fs@[i].id == fs_id)
}

/// Whether the target belongs to the filesystem `fs_id`.
pub fn is_fs_target<T>(fs_id: u32, t: &Target<T>) -> (r: bool)
    ensures
        r == belongs_to_fs(fs_id, *t),
{
    if t.filesystem_id == Some(fs_id) {
        return true;
    }
    match &t.filesystems {
        None => false,
        Some(fs) => {
            let mut i: usize = 0;
            while i < fs.len()
                invariant
                    t.filesystems == Some(*fs),
                    t.filesystem_id != Some(fs_id),
                    i <= fs@.len(),
                    forall|j: int| 0 <= j < i ==> #[trigger] fs@[j].id != fs_id,
                decreases fs@.len() - i,
            {
                if fs[i].id == fs_id {
                    assert(t.filesystems->Some_0@[i as int].id == fs_id);
                    assert(belongs_to_fs(fs_id, *t));
                    return true;
                }
                i = i + 1;
            }
            false
        },
    }
}

/// The position of the management target served at `mgt_uri`, if there is one.
pub fn mgs_index<T>(xs: &Vec<Target<T>>, mgt_uri: &str) -> (r: Option<usize>)
    ensures
        match r {
            Some(i) => i < xs@.len() && xs@[i as int].kind == TargetKind::Mgt && xs@[i as int].resource_uri@
                == mgt_uri@ && forall|j: int| 0 <= j < i ==> !(#[trigger] xs@[j].kind == TargetKind::Mgt
                && xs@[j].resource_uri@ == mgt_uri@),
            None => forall|j: int| 0 <= j < xs@.len() ==> !(#[trigger] xs@[j].kind == TargetKind::Mgt
                && xs@[j].resource_uri@ == mgt_uri@),
        },
{
    let mut i: usize = 0;
    while i < xs.len()
        invariant
            i <= xs@.len(),
            forall|j: int| 0 <= j < i ==> !(#[trigger] xs@[j].kind == TargetKind::Mgt && xs@[j].resource_uri@
                == mgt_uri@),
        decreases xs@.len() - i,
    {
        let is_mgt = match xs[i].kind {
            TargetKind::Mgt => true,
            _ => false,
        };
        if is_mgt && crate::text::str_eq(xs[i].resource_uri.as_str(), mgt_uri) {
            return Some(i);
        }
        i = i + 1;
    }
    None
}

/// The targets of `xs` whose id is not `id`, in order.
pub open spec fn without_id<T>(xs: Seq<Target<T>>, id: u32) -> Seq<Target<T>>
    decreases xs.len(),
{
    if xs.len() == 0 {
        Seq::empty()
    } else {
        let rest = without_id(xs.drop_last(), id);
        if xs.last().id == id {
            rest
        } else {
            rest.push(xs.last())
        }
    }
}

/// Removing the targets with an id keeps every target with another id and only targets
/// of the list, none with that id.
pub proof fn lemma_without_id<T>(xs: Seq<Target<T>>, id: u32)
    ensures
        forall|j: int| 0 <= j < without_id(xs, id).len() ==> #[trigger] without_id(xs, id)[j].id != id
            && xs.contains(without_id(xs, id)[j]),
        forall|i: int| 0 <= i < xs.len() && #[trigger] xs[i].id != id ==> without_id(xs, id).contains(xs[i]),
    decreases xs.len(),
{
    if xs.len() > 0 {
        let rest = xs.drop_last();
        lemma_without_id(rest, id);
        let r = without_id(xs, id);
        let rr = without_id(rest, id);
        assert forall|j: int| 0 <= j < r.len() implies #[trigger] r[j].id != id && xs.contains(r[j]) by {
            if j < rr.len() {
                assert(r[j] == rr[j]);
                assert(rr[j].id != id && rest.contains(rr[j]));
                let k = choose|k: int| 0 <= k < rest.len() && rest[k] == rr[j];
                assert(xs[k] == rest[k]);
            } else {
                assert(r[j] == xs.last());
                assert(xs[xs.len() - 1] == xs.last());
            }
        }
        assert forall|i: int| 0 <= i < xs.len() && #[trigger] xs[i].id != id implies r.contains(xs[i]) by {
            if i < xs.len() - 1 {
                assert(rest[i] == xs[i]);
                assert(rest[i].id != id);
                assert(rr.contains(rest[i]));
                let k = choose|k: int| 0 <= k < rr.len() && rr[k] == rest[i];
                assert(r[k] == rr[k]);
            } else {
                assert(r[r.len() - 1] == xs[i]);
            }
        }
    }
}

/// The targets of a kind of a filesystem are those of the list that belong to the
/// filesystem and are of that kind: every such target is among them, and no other.
pub proof fn lemma_fs_targets_of_kind<T>(fs_id: u32, xs: Seq<Target<T>>, kind: TargetKind)
    ensures
        forall|j: int| 0 <= j < fs_targets_of_kind(fs_id, xs, kind).len() ==> {
            let t = #[trigger] fs_targets_of_kind(fs_id, xs, kind)[j];
            belongs_to_fs(fs_id, t) && t.kind == kind && xs.contains(t)
        },
        forall|i: int| 0 <= i < xs.len() && belongs_to_fs(fs_id, #[trigger] xs[i]) && xs[i].kind == kind
            ==> fs_targets_of_kind(fs_id, xs, kind).contains(xs[i]),
    decreases xs.len(),
{
    if xs.len() > 0 {
        let rest = xs.drop_last();
        lemma_fs_targets_of_kind(fs_id, rest, kind);
        let r = fs_targets_of_kind(fs_id, xs, kind);
        let rr = fs_targets_of_kind(fs_id, rest, kind);
        assert forall|j: int| 0 <= j < r.len() implies {
            let t = #[trigger] r[j];
            belongs_to_fs(fs_id, t) && t.kind == kind && xs.contains(t)
        } by {
            if j < rr.len() {
                assert(r[j] == rr[j]);
                assert(xs.drop_last().contains(rr[j]));
                let k = choose|k: int| 0 <= k < rest.len() && rest[k] == rr[j];
                assert(xs[k] == rest[k]);
            } else {
                assert(r[j] == xs.last());
                assert(xs[xs.len() - 1] == xs.last());
            }
        }
        assert forall|i: int| 0 <= i < xs.len() && belongs_to_fs(fs_id, #[trigger] xs[i]) && xs[i].kind == kind implies r.contains(xs[i]) by {
            if i < xs.len() - 1 {
                assert(rest[i] == xs[i]);
                assert(belongs_to_fs(fs_id, rest[i]));
                assert(rr.contains(rest[i]));
                let k = choose|k: int| 0 <= k < rr.len() && rr[k] == rest[i];
                assert(r[k] == rr[k]);
            } else {
                assert(r[r.len() - 1] == xs[i]);
            }
        }
    }
}

/// Removes the targets with the given id.
pub fn remove_target<T>(xs: &mut Vec<Target<T>>, id: u32)
    ensures
        final(xs)@ == without_id(old(xs)@, id),
{
    let ghost orig = xs@;
    let len = xs.len();
    let mut kept: Vec<Target<T>> = Vec::new();
    let mut rest: Vec<Target<T>> = Vec::new();
    std::mem::swap(&mut rest, xs);
    let ghost n = orig.len();
    // Take the targets out from the back, then put back the kept ones in order.
    let mut back: Vec<Target<T>> = Vec::new();
    assert(orig.take(n as int) =~= orig);
    while rest.len() > 0
        invariant
            n == orig.len(),
            rest@.len() + back@.len() == n,
            rest@ == orig.take(rest@.len() as int),
            forall|j: int| 0 <= j < back@.len() ==> #[trigger] back@[j] == orig[n - 1 - j],
        decreases rest@.len(),
    {
        let t = rest.pop().unwrap();
        proof {
            assert(rest@ =~= orig.take(rest@.len() as int));
        }
        back.push(t);
    }
    let mut i: usize = 0;
    assert(without_id(orig.take(0), id) =~= Seq::<Target<T>>::empty());
    while back.len() > 0
        invariant
            n == orig.len(),
            n == len,
            back@.len() + i == n,
            i <= n,
            forall|j: int| 0 <= j < back@.len() ==> #[trigger] back@[j] == orig[n - 1 - j],
            kept@ == without_id(orig.take(i as int), id),
        decreases back@.len(),
    {
        let t = back.pop().unwrap();
        proof {
            assert(t == orig[i as int]);
            assert(orig.take(i + 1).drop_last() =~= orig.take(i as int));
            assert(orig.take(i + 1).last() == orig[i as int]);
        }
        if t.id != id {
            kept.push(t);
        }
        i = i + 1;
    }
    proof {
        assert(orig.take(n as int) =~= orig);
    }
    *xs = kept;
}

/// The position of the first target of `xs` with the given id.
pub open spec fn first_with_id<T>(xs: Seq<Target<T>>, id: u32, p: int) -> bool {
    0 <= p < xs.len() && xs[p].id == id && forall|j: int| 0 <= j < p ==> #[trigger] xs[j].id != id
}

/// Puts `x` in the place of the first target with its id; returns whether there was one.
pub fn replace_target<T>(xs: &mut Vec<Target<T>>, x: Target<T>) -> (found: bool)
    ensures
        found ==> exists|p: int| first_with_id(old(xs)@, x.id, p) && final(xs)@ == old(xs)@.update(p, x),
        !found ==> final(xs)@ == old(xs)@ && forall|j: int| 0 <= j < old(xs)@.len() ==> #[trigger] old(xs)@[j].id != x.id,
{
    let mut i: usize = 0;
    while i < xs.len()
        invariant
            xs@ == old(xs)@,
            i <= xs@.len(),
            forall|j: int| 0 <= j < i ==> #[trigger] xs@[j].id != x.id,
        decreases xs@.len() - i,
    {
        if xs[i].id == x.id {
            let ghost p = i as int;
            xs.set(i, x);
            assert(first_with_id(old(xs)@, x.id, p));
            return true;
        }
        i = i + 1;
    }
    false
}

/// The targets of `xs` of the given kind that belong to the filesystem `fs_id`, in order.
pub open spec fn fs_targets_of_kind<T>(fs_id: u32, xs: Seq<Target<T>>, kind: TargetKind) -> Seq<Target<T>>
    decreases xs.len(),
{
    if xs.len() == 0 {
        Seq::empty()
    } else {
        let rest = fs_targets_of_kind(fs_id, xs.drop_last(), kind);
        if belongs_to_fs(fs_id, xs.last()) && xs.last().kind == kind {
            rest.push(xs.last())
        } else {
            rest
        }
    }
}

/// Splits the targets of the filesystem `fs_id` by kind: the management targets, the
/// metadata targets and the object storage targets, each in their order in `xs`.
pub fn split_fs_targets<T>(fs_id: u32, xs: Vec<Target<T>>) -> (r: (Vec<Target<T>>, Vec<Target<T>>, Vec<Target<T>>))
    ensures
        r.0@ == fs_targets_of_kind(fs_id, xs@, TargetKind::Mgt),
        r.1@ == fs_targets_of_kind(fs_id, xs@, TargetKind::Mdt),
        r.2@ == fs_targets_of_kind(fs_id, xs@, TargetKind::Ost),
{
    let ghost orig = xs@;
    let n = xs.len();
    let mut rest = xs;
    let mut back: Vec<Target<T>> = Vec::new();
    assert(orig.take(n as int) =~= orig);
    while rest.len() > 0
        invariant
            n == orig.len(),
            rest@.len() + back@.len() == n,
            rest@ == orig.take(rest@.len() as int),
            forall|j: int| 0 <= j < back@.len() ==> #[trigger] back@[j] == orig[n - 1 - j],
        decreases rest@.len(),
    {
        let t = rest.pop().unwrap();
        proof {
            assert(rest@ =~= orig.take(rest@.len() as int));
        }
        back.push(t);
    }
    let mut mgt: Vec<Target<T>> = Vec::new();
    let mut mdts: Vec<Target<T>> = Vec::new();
    let mut osts: Vec<Target<T>> = Vec::new();
    let mut i: usize = 0;
    proof {
        assert(fs_targets_of_kind(fs_id, orig.take(0), TargetKind::Mgt) =~= Seq::<Target<T>>::empty());
        assert(fs_targets_of_kind(fs_id, orig.take(0), TargetKind::Mdt) =~= Seq::<Target<T>>::empty());
        assert(fs_targets_of_kind(fs_id, orig.take(0), TargetKind::Ost) =~= Seq::<Target<T>>::empty());
    }
    while back.len() > 0
        invariant
            n == orig.len(),
            back@.len() + i == n,
            forall|j: int| 0 <= j < back@.len() ==> #[trigger] back@[j] == orig[n - 1 - j],
            mgt@ == fs_targets_of_kind(fs_id, orig.take(i as int), TargetKind::Mgt),
            mdts@ == fs_targets_of_kind(fs_id, orig.take(i as int), TargetKind::Mdt),
            osts@ == fs_targets_of_kind(fs_id, orig.take(i as int), TargetKind::Ost),
        decreases back@.len(),
    {
        let t = back.pop().unwrap();
        proof {
            assert(t == orig[i as int]);
            assert(orig.take(i + 1).drop_last() =~= orig.take(i as int));
            assert(orig.take(i + 1).last() == orig[i as int]);
        }
        if is_fs_target(fs_id, &t) {
            match t.kind {
                TargetKind::Mgt => mgt.push(t),
                TargetKind::Mdt => mdts.push(t),
                TargetKind::Ost => osts.push(t),
            }
        }
        i = i + 1;
    }
    proof {
        assert(orig.take(n as int) =~= orig);
    }
    (mgt, mdts, osts)
}

/// The targets of the filesystem `fs_id`, by kind, as the page shows them: the
/// management targets in their order in `xs`, then the metadata targets and the object
/// storage targets, each sorted by the natural order of their names, none lost or added.
pub fn fs_targets<T>(fs_id: u32, xs: Vec<Target<T>>) -> (r: (Vec<Target<T>>, Vec<Target<T>>, Vec<Target<T>>))
    ensures
        r.0@ == fs_targets_of_kind(fs_id, xs@, TargetKind::Mgt),
        r.1@ == sorted_by_name(fs_targets_of_kind(fs_id, xs@, TargetKind::Mdt)),
        r.2@ == sorted_by_name(fs_targets_of_kind(fs_id, xs@, TargetKind::Ost)),
        names_in_order(r.1@),
        names_in_order(r.2@),
        r.1@.to_multiset() =~= fs_targets_of_kind(fs_id, xs@, TargetKind::Mdt).to_multiset(),
        r.2@.to_multiset() =~= fs_targets_of_kind(fs_id, xs@, TargetKind::Ost).to_multiset(),
{
    let (mgt, mdts, osts) = split_fs_targets(fs_id, xs);
    (mgt, sort_targets_by_name(mdts), sort_targets_by_name(osts))
}

/// The positions in `tgts` of the targets that the page shows a row for: those whose id
/// has a row among `row_ids`, in order.
pub fn targets_with_rows<T>(tgts: &Vec<Target<T>>, row_ids: &Vec<u32>) -> (r: Vec<usize>)
    ensures
        forall|j: int| 0 <= j < r@.len() ==> r@[j] < tgts@.len() && row_ids@.contains(tgts@[#[trigger] r@[j] as int].id),
        forall|j: int, k: int| 0 <= j < k < r@.len() ==> r@[j] < r@[k],
        forall|i: int| 0 <= i < tgts@.len() && row_ids@.contains(#[trigger] tgts@[i].id) ==> r@.contains(i as usize),
{
    let mut r: Vec<usize> = Vec::new();
    let mut i: usize = 0;
    while i < tgts.len()
        invariant
            i <= tgts@.len(),
            forall|j: int| 0 <= j < r@.len() ==> r@[j] < i && row_ids@.contains(tgts@[#[trigger] r@[j] as int].id),
            forall|j: int, k: int| 0 <= j < k < r@.len() ==> r@[j] < r@[k],
            forall|m: int| 0 <= m < i && row_ids@.contains(#[trigger] tgts@[m].id) ==> r@.contains(m as usize),
        decreases tgts@.len() - i,
    {
        let id = tgts[i].id;
        let mut found = false;
        let mut k: usize = 0;
        while k < row_ids.len()
            invariant
                k <= row_ids@.len(),
                found <==> exists|q: int| 0 <= q < k && row_ids@[q] == id,
            decreases row_ids@.len() - k,
        {
            if row_ids[k] == id {
                found = true;
            }
            k = k + 1;
        }
        if found {
            let ghost before = r@;
            r.push(i);
            proof {
                assert forall|m: int| 0 <= m < i + 1 && row_ids@.contains(#[trigger] tgts@[m].id) implies r@.contains(m as usize) by {
                    if m == i {
                        assert(r@[r@.len() - 1] == i);
                    } else {
                        assert(before.contains(m as usize));
                        let q = choose|q: int| 0 <= q < before.len() && before[q] == m as usize;
                        assert(r@[q] == m as usize);
                    }
                }
            }
        } else {
            proof {
                assert(!row_ids@.contains(tgts@[i as int].id));
            }
        }
        i = i + 1;
    }
    r
}

/// What the filesystem page holds: the filesystem's id and name, its targets by kind, the
/// ids of the targets that have a row (each with its action menu), its statistics, and
/// whether a new fetch of the statistics is scheduled.
pub struct PageModel<T> {
    pub fs_id: u32,
    pub fs_name: String,
    pub mgt: Vec<Target<T>>,
    pub mdts: Vec<Target<T>>,
    pub osts: Vec<Target<T>>,
    pub rows: Vec<u32>,
    pub stats: Stats,
    pub stats_refetch_scheduled: bool,
}

/// The messages of the filesystem page that change what it holds.
pub enum PageMsg<T> {
    /// Fetch the statistics now.
    FetchStats,
    /// The answer to a fetch of the statistics, or the reason it failed.
    StatsFetched(Result<InfluxResponse, String>),
    /// A target was added or changed.
    AddTarget(Target<T>),
    /// The target with this id was removed.
    RemoveTarget(u32),
    /// These are all the targets.
    SetTargets(Vec<Target<T>>),
    /// Nothing happened.
    Noop,
}

/// What the page asks for after a message.
#[derive(Debug, PartialEq, Eq)]
pub enum PageAction {
    /// Fetch the statistics from this URL.
    FetchStats(String),
    /// Fetch the statistics again in thirty seconds.
    ScheduleStatsFetch,
    /// Report this failure of a fetch of the statistics, then fetch them again in thirty
    /// seconds.
    ReportErrorAndScheduleStatsFetch(String),
    /// Recount the pages of the metadata and object storage target tables.
    UpdatePaging,
    /// Nothing.
    Nothing,
}

/// The targets and rows of two page states agree.
pub open spec fn targets_kept<T>(a: PageModel<T>, b: PageModel<T>) -> bool {
    &&& a.fs_id == b.fs_id
    &&& a.fs_name@ == b.fs_name@
    &&& a.mgt@ == b.mgt@
    &&& a.mdts@ == b.mdts@
    &&& a.osts@ == b.osts@
    &&& a.rows@ == b.rows@
}

/// The statistics of two page states agree.
pub open spec fn stats_kept<T>(a: PageModel<T>, b: PageModel<T>) -> bool {
    a.stats == b.stats && a.stats_refetch_scheduled == b.stats_refetch_scheduled
}

/// The page's list of the targets of a kind.
pub open spec fn list_of_kind<T>(m: PageModel<T>, kind: TargetKind) -> Seq<Target<T>> {
    match kind {
        TargetKind::Mgt => m.mgt@,
        TargetKind::Mdt => m.mdts@,
        TargetKind::Ost => m.osts@,
    }
}

/// The page's lists of the targets of the other kinds than `kind` agree in two states.
pub open spec fn other_lists_kept<T>(a: PageModel<T>, b: PageModel<T>, kind: TargetKind) -> bool {
    &&& kind != TargetKind::Mgt ==> a.mgt@ == b.mgt@
    &&& kind != TargetKind::Mdt ==> a.mdts@ == b.mdts@
    &&& kind != TargetKind::Ost ==> a.osts@ == b.osts@
}

/// The state of the page after the target `x` is added or changed: a target of another
/// filesystem changes nothing; a target already listed (by id) in the list of its kind takes
/// the place of the first with its id; a new one gets a row (and, as the page does, waits
/// for the next full list to be listed).
pub open spec fn added<T>(a: PageModel<T>, b: PageModel<T>, x: Target<T>) -> bool {
    if !belongs_to_fs(a.fs_id, x) {
        targets_kept(a, b)
    } else {
        &&& a.fs_id == b.fs_id
        &&& a.fs_name@ == b.fs_name@
        &&& other_lists_kept(a, b, x.kind)
        &&& if exists|p: int| first_with_id(list_of_kind(a, x.kind), x.id, p) {
            &&& exists|p: int|
                first_with_id(list_of_kind(a, x.kind), x.id, p) && list_of_kind(b, x.kind)
                    == list_of_kind(a, x.kind).update(p, x)
            &&& b.rows@ == a.rows@
        } else {
            &&& list_of_kind(b, x.kind) == list_of_kind(a, x.kind)
            &&& forall|r: u32| b.rows@.contains(r) <==> (a.rows@.contains(r) || r == x.id)
        }
    }
}

/// Drops every row of the target `id`.
fn remove_row(rows: &mut Vec<u32>, id: u32)
    ensures
        forall|r: u32| final(rows)@.contains(r) <==> (old(rows)@.contains(r) && r != id),
{
    let mut kept: Vec<u32> = Vec::new();
    let mut i: usize = 0;
    while i < rows.len()
        invariant
            rows@ == old(rows)@,
            i <= rows@.len(),
            forall|k: int| 0 <= k < kept@.len() ==> #[trigger] kept@[k] != id && rows@.contains(kept@[k]),
            forall|j: int| 0 <= j < i && #[trigger] rows@[j] != id ==> kept@.contains(rows@[j]),
        decreases rows@.len() - i,
    {
        let r = rows[i];
        let ghost before = kept@;
        if r != id {
            kept.push(r);
            proof {
                assert(kept@[kept@.len() - 1] == r);
                assert forall|j: int| 0 <= j < i + 1 && #[trigger] rows@[j] != id implies kept@.contains(rows@[j]) by {
                    if j < i {
                        let k = choose|k: int| 0 <= k < before.len() && before[k] == rows@[j];
                        assert(kept@[k] == rows@[j]);
                    }
                }
            }
        }
        i = i + 1;
    }
    proof {
        assert forall|q: u32| kept@.contains(q) <==> (old(rows)@.contains(q) && q != id) by {
            if old(rows)@.contains(q) && q != id {
                let j = choose|j: int| 0 <= j < old(rows)@.len() && old(rows)@[j] == q;
                assert(rows@[j] != id);
            }
            if kept@.contains(q) {
                let k = choose|k: int| 0 <= k < kept@.len() && kept@[k] == q;
                assert(kept@[k] != id);
            }
        }
    }
    *rows = kept;
}

/// The ids of the targets, in order.
fn target_ids<T>(xs: &Vec<Target<T>>) -> (r: Vec<u32>)
    ensures
        forall|q: u32| r@.contains(q) <==> exists|i: int| 0 <= i < xs@.len() && xs@[i].id == q,
{
    let mut r: Vec<u32> = Vec::new();
    let mut i: usize = 0;
    while i < xs.len()
        invariant
            i <= xs@.len(),
            r@.len() == i,
            forall|j: int| 0 <= j < i ==> #[trigger] r@[j] == xs@[j].id,
        decreases xs@.len() - i,
    {
        r.push(xs[i].id);
        i = i + 1;
    }
    proof {
        assert forall|q: u32| r@.contains(q) <==> exists|i: int| 0 <= i < xs@.len() && xs@[i].id == q by {
            if exists|i: int| 0 <= i < xs@.len() && xs@[i].id == q {
                let i = choose|i: int| 0 <= i < xs@.len() && xs@[i].id == q;
                assert(r@[i] == q);
            }
        }
    }
    r
}

/// Takes a message of the filesystem page: updates what the page holds, and says what to
/// do next.
pub fn update<T>(model: &mut PageModel<T>, msg: PageMsg<T>) -> (a: PageAction)
    ensures
        match msg {
            PageMsg::FetchStats => {
                &&& targets_kept(*final(model), *old(model))
                &&& final(model).stats == old(model).stats
                &&& !final(model).stats_refetch_scheduled
                &&& a matches PageAction::FetchStats(url) && url@ == STATS_URL_PREFIX@ + stats_query(old(model).fs_name@)
            },
            PageMsg::StatsFetched(Ok(response)) => {
                &&& targets_kept(*final(model), *old(model))
                &&& final(model).stats == stats_after(old(model).stats, response.results@)
                &&& final(model).stats_refetch_scheduled
                &&& a == PageAction::ScheduleStatsFetch
            },
            PageMsg::StatsFetched(Err(e)) => {
                &&& targets_kept(*final(model), *old(model))
                &&& final(model).stats == old(model).stats
                &&& final(model).stats_refetch_scheduled
                &&& a matches PageAction::ReportErrorAndScheduleStatsFetch(m) && m@ == e@
            },
            PageMsg::AddTarget(x) => {
                &&& stats_kept(*final(model), *old(model))
                &&& added(*old(model), *final(model), x)
                &&& a == (if belongs_to_fs(old(model).fs_id, x) { PageAction::UpdatePaging } else { PageAction::Nothing })
            },
            PageMsg::RemoveTarget(id) => {
                &&& stats_kept(*final(model), *old(model))
                &&& final(model).fs_id == old(model).fs_id
                &&& final(model).fs_name@ == old(model).fs_name@
                &&& final(model).mgt@ == without_id(old(model).mgt@, id)
                &&& final(model).mdts@ == without_id(old(model).mdts@, id)
                &&& final(model).osts@ == without_id(old(model).osts@, id)
                &&& forall|r: u32| final(model).rows@.contains(r) <==> (old(model).rows@.contains(r) && r != id)
                &&& a == PageAction::UpdatePaging
            },
            PageMsg::SetTargets(xs) => {
                &&& stats_kept(*final(model), *old(model))
                &&& final(model).fs_id == old(model).fs_id
                &&& final(model).fs_name@ == old(model).fs_name@
                &&& final(model).mgt@ == fs_targets_of_kind(old(model).fs_id, xs@, TargetKind::Mgt)
                &&& final(model).mdts@ == sorted_by_name(fs_targets_of_kind(old(model).fs_id, xs@, TargetKind::Mdt))
                &&& final(model).osts@ == sorted_by_name(fs_targets_of_kind(old(model).fs_id, xs@, TargetKind::Ost))
                &&& forall|r: u32| final(model).rows@.contains(r) <==> exists|i: int| 0 <= i < xs@.len() && xs@[i].id == r
                &&& a == PageAction::UpdatePaging
            },
            PageMsg::Noop => {
                &&& targets_kept(*final(model), *old(model))
                &&& stats_kept(*final(model), *old(model))
                &&& a == PageAction::Nothing
            },
        },
{
    match msg {
        PageMsg::FetchStats => {
            model.stats_refetch_scheduled = false;
            PageAction::FetchStats(stats_url(model.fs_name.as_str()))
        },
        PageMsg::StatsFetched(Ok(response)) => {
            update_stats(&mut model.stats, &response);
            model.stats_refetch_scheduled = true;
            PageAction::ScheduleStatsFetch
        },
        PageMsg::StatsFetched(Err(e)) => {
            model.stats_refetch_scheduled = true;
            PageAction::ReportErrorAndScheduleStatsFetch(e)
        },
        PageMsg::AddTarget(x) => {
            if !is_fs_target(model.fs_id, &x) {
                return PageAction::Nothing;
            }
            let id = x.id;
            let found = match x.kind {
                TargetKind::Mgt => replace_target(&mut model.mgt, x),
                TargetKind::Mdt => replace_target(&mut model.mdts, x),
                TargetKind::Ost => replace_target(&mut model.osts, x),
            };
            if !found {
                let ghost before = model.rows@;
                model.rows.push(id);
                proof {
                    assert forall|r: u32| model.rows@.contains(r) <==> (before.contains(r) || r == id) by {
                        if before.contains(r) {
                            let k = choose|k: int| 0 <= k < before.len() && before[k] == r;
                            assert(model.rows@[k] == r);
                        }
                        if r == id {
                            assert(model.rows@[model.rows@.len() - 1] == id);
                        }
                        if model.rows@.contains(r) {
                            let k = choose|k: int| 0 <= k < model.rows@.len() && model.rows@[k] == r;
                            if k < before.len() {
                                assert(before[k] == r);
                            }
                        }
                    }
                }
            }
            PageAction::UpdatePaging
        },
        PageMsg::RemoveTarget(id) => {
            remove_target(&mut model.mgt, id);
            remove_target(&mut model.mdts, id);
            remove_target(&mut model.osts, id);
            remove_row(&mut model.rows, id);
            PageAction::UpdatePaging
        },
        PageMsg::SetTargets(xs) => {
            let ids = target_ids(&xs);
            let (mgt, mdts, osts) = fs_targets(model.fs_id, xs);
            model.rows = ids;
            model.mgt = mgt;
            model.mdts = mdts;
            model.osts = osts;
            PageAction::UpdatePaging
        },
        PageMsg::Noop => PageAction::Nothing,
    }
}

} // verus!
