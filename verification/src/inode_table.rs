//! The table of the top inode users of a filesystem, read from the results of
//! the stratagem scans stored in influxdb.

use vstd::prelude::*;

verus! {

/// The number of entries the table asks for.
pub const MAX_INODE_ENTRIES: u32 = 20;

/// The inodes used by one user at one scan.
#[derive(Debug, PartialEq)]
pub struct INodeCount {
    pub timestamp: i64,
    pub uid: String,
    pub count: u32,
    pub size: i64,
}

/// One series of a query result: rows of timestamp, user, count and size.
#[derive(Debug)]
pub struct InfluxSeries {
    pub name: String,
    pub columns: Vec<String>,
    pub values: Vec<(i64, String, u32, i64)>,
}

/// The result of one statement of a query.
#[derive(Debug)]
pub struct InfluxResult {
    pub statement_id: u16,
    pub series: Option<Vec<InfluxSeries>>,
}

/// The results of a query.
#[derive(Debug)]
pub struct InfluxResults {
    pub results: Vec<InfluxResult>,
}

/// The query of the top inode users, up to the filesystem name.
pub const INODES_URL_HEAD: &'static str = "influx/db=iml_stratagem_scans&epoch=ns&q=SELECT%20counter_name,%20count,%20size%20FROM%20stratagem_scan%20WHERE%20group_name=%27user_distribution%27%20and%20fs_name=%27";

/// The query of the top inode users, after the filesystem name: it asks for at most
/// twenty entries.
pub const INODES_URL_TAIL: &'static str = "%27%20limit%2020";

/// The URL from which the table fetches the top inode users of the filesystem `fs_name`.
pub fn inodes_url(fs_name: &str) -> (r: String)
    ensures
        r@ == INODES_URL_HEAD@ + fs_name@ + INODES_URL_TAIL@,
{
    let mut s = crate::text::concat(INODES_URL_HEAD, fs_name);
    s.append(INODES_URL_TAIL);
    s
}

/// The rows of the first series of the first result, if there are any.
pub open spec fn first_rows(results: Seq<InfluxResult>) -> Seq<(i64, String, u32, i64)> {
    if results.len() > 0 && results[0].series is Some && results[0].series->Some_0@.len() > 0 {
        results[0].series->Some_0@[0].values@
    } else {
        Seq::empty()
    }
}

/// The inode counts of the first series of the first result of `data`.
pub fn inodes_from_results(data: &InfluxResults) -> (r: Vec<INodeCount>)
    ensures
        r@.len() == first_rows(data.results@).len(),
        forall|i: int| #![trigger r@[i]] 0 <= i < r@.len() ==> {
            let row = first_rows(data.results@)[i];
            &&& r@[i].timestamp == row.0
            &&& r@[i].uid@ == row.1@
            &&& r@[i].count == row.2
            &&& r@[i].size == row.3
        },
{
    let mut r: Vec<INodeCount> = Vec::new();
    if data.results.len() == 0 {
        return r;
    }
    match &data.results[0].series {
        None => r,
        Some(series) => {
            if series.len() == 0 {
                return r;
            }
            let rows = &series[0].values;
            let ghost want = first_rows(data.results@);
            assert(want == rows@);
            let mut i: usize = 0;
            while i < rows.len()
                invariant
                    want == rows@,
                    i <= rows@.len(),
                    r@.len() == i,
                    forall|j: int| #![trigger r@[j]] 0 <= j < i ==> {
                        let row = want[j];
                        &&& r@[j].timestamp == row.0
                        &&& r@[j].uid@ == row.1@
                        &&& r@[j].count == row.2
                        &&& r@[j].size == row.3
                    },
                decreases rows@.len() - i,
            {
                let row = &rows[i];
                r.push(INodeCount { timestamp: row.0, uid: row.1.clone(), count: row.2, size: row.3 });
                i = i + 1;
            }
            r
        },
    }
}

/// The time of a scan, from its timestamp in nanoseconds, as `chrono` writes it in UTC
/// with the format `%A, %B %d, %Y %H:%M:%S %Z`.
pub uninterp spec fn scan_time_text(timestamp: i64) -> Seq<char>;

/// Formats a timestamp in nanoseconds with `chrono::Utc.timestamp_nanos` and
/// `DateTime::format`. The contract claims only that the text depends on the timestamp
/// alone, named `scan_time_text`.
#[verifier::external_body]
fn format_scan_time(timestamp: i64) -> (r: String)
    ensures
        r@ == scan_time_text(timestamp),
{
    let dt = chrono::TimeZone::timestamp_nanos(&chrono::Utc, timestamp);
    format!("{}", dt.format("%A, %B %d, %Y %H:%M:%S %Z"))
}

/// The time of a scan, from its timestamp in nanoseconds.
pub fn get_date_time(timestamp: i64) -> (r: String)
    ensures
        r@ == scan_time_text(timestamp),
{
    format_scan_time(timestamp)
}

/// The time of the last known scan: that of the first inode count, if there is one.
pub fn last_known_scan(inodes: &Vec<INodeCount>) -> (r: Option<String>)
    ensures
        inodes@.len() == 0 ==> r is None,
        inodes@.len() > 0 ==> r is Some && r->Some_0@ == scan_time_text(inodes@[0].timestamp),
{
    if inodes.len() == 0 {
        None
    } else {
        Some(get_date_time(inodes[0].timestamp))
    }
}

/// The inode counts `r` are those of the first series of the first result of `results`.
pub open spec fn inodes_of(results: Seq<InfluxResult>, r: Seq<INodeCount>) -> bool {
    &&& r.len() == first_rows(results).len()
    &&& forall|i: int| #![trigger r[i]] 0 <= i < r.len() ==> {
        let row = first_rows(results)[i];
        &&& r[i].timestamp == row.0
        &&& r[i].uid@ == row.1@
        &&& r[i].count == row.2
        &&& r[i].size == row.3
    }
}

/// What the inode table holds: the inode counts, whether it was destroyed, whether a new
/// fetch is scheduled, whether a fetch is under way, the time of the last known scan, and
/// the name of the filesystem.
pub struct InodeTableModel {
    pub inodes: Vec<INodeCount>,
    pub destroyed: bool,
    pub refetch_scheduled: bool,
    pub request_pending: bool,
    pub last_known_scan: Option<String>,
    pub fs_name: String,
}

/// The messages of the inode table.
pub enum InodeMsg {
    /// Fetch the inode counts now.
    FetchInodes,
    /// The answer to a fetch, or the reason it failed.
    InodesFetched(Result<InfluxResults, String>),
    /// A fetch failed for this reason.
    OnFetchError(String),
    /// The table goes away.
    Destroy,
    /// Nothing happened.
    Noop,
}

/// What the inode table asks for after a message.
#[derive(Debug, PartialEq, Eq)]
pub enum InodeAction {
    /// Fetch the inode counts from this URL.
    Fetch(String),
    /// Fetch the inode counts again in sixty seconds.
    ScheduleFetch,
    /// Report this failure of a fetch, then fetch again in sixty seconds.
    ReportErrorAndScheduleFetch(String),
    /// Log this failure of a fetch.
    LogError(String),
    /// Abort the fetch under way.
    AbortRequest,
    /// Nothing.
    Nothing,
}

/// Two states of the inode table hold the same inode counts and last scan.
pub open spec fn inodes_kept(a: InodeTableModel, b: InodeTableModel) -> bool {
    a.inodes@ == b.inodes@ && crate::db::opt_string_view(a.last_known_scan) == crate::db::opt_string_view(b.last_known_scan)
}

/// Takes a message of the inode table: updates what it holds, and says what to do next.
/// A destroyed table takes no message.
pub fn update(model: &mut InodeTableModel, msg: InodeMsg) -> (a: InodeAction)
    ensures
        final(model).fs_name@ == old(model).fs_name@,
        old(model).destroyed ==> {
            &&& inodes_kept(*final(model), *old(model))
            &&& final(model).destroyed
            &&& final(model).refetch_scheduled == old(model).refetch_scheduled
            &&& final(model).request_pending == old(model).request_pending
            &&& a == InodeAction::Nothing
        },
        !old(model).destroyed ==> match msg {
            InodeMsg::FetchInodes => {
                &&& inodes_kept(*final(model), *old(model))
                &&& !final(model).destroyed
                &&& !final(model).refetch_scheduled
                &&& final(model).request_pending
                &&& a matches InodeAction::Fetch(url) && url@ == INODES_URL_HEAD@ + old(model).fs_name@ + INODES_URL_TAIL@
            },
            InodeMsg::InodesFetched(Ok(data)) => {
                &&& inodes_of(data.results@, final(model).inodes@)
                &&& final(model).inodes@.len() == 0 ==> final(model).last_known_scan is None
                &&& final(model).inodes@.len() > 0 ==> crate::db::opt_string_view(final(model).last_known_scan)
                    == Some(scan_time_text(final(model).inodes@[0].timestamp))
                &&& !final(model).destroyed
                &&& final(model).refetch_scheduled
                &&& !final(model).request_pending
                &&& a == InodeAction::ScheduleFetch
            },
            InodeMsg::InodesFetched(Err(e)) => {
                &&& inodes_kept(*final(model), *old(model))
                &&& !final(model).destroyed
                &&& final(model).refetch_scheduled
                &&& !final(model).request_pending
                &&& a matches InodeAction::ReportErrorAndScheduleFetch(m) && m@ == e@
            },
            InodeMsg::OnFetchError(e) => {
                &&& inodes_kept(*final(model), *old(model))
                &&& !final(model).destroyed
                &&& final(model).refetch_scheduled == old(model).refetch_scheduled
                &&& final(model).request_pending == old(model).request_pending
                &&& a matches InodeAction::LogError(m) && m@ == e@
            },
            InodeMsg::Destroy => {
                &&& final(model).inodes@.len() == 0
                &&& crate::db::opt_string_view(final(model).last_known_scan) == crate::db::opt_string_view(old(model).last_known_scan)
                &&& final(model).destroyed
                &&& !final(model).refetch_scheduled
                &&& !final(model).request_pending
                &&& a == (if old(model).request_pending { InodeAction::AbortRequest } else { InodeAction::Nothing })
            },
            InodeMsg::Noop => {
                &&& inodes_kept(*final(model), *old(model))
                &&& !final(model).destroyed
                &&& final(model).refetch_scheduled == old(model).refetch_scheduled
                &&& final(model).request_pending == old(model).request_pending
                &&& a == InodeAction::Nothing
            },
        },
{
    if model.destroyed {
        return InodeAction::Nothing;
    }
    match msg {
        InodeMsg::FetchInodes => {
            model.refetch_scheduled = false;
            model.request_pending = true;
            InodeAction::Fetch(inodes_url(model.fs_name.as_str()))
        },
        InodeMsg::InodesFetched(Ok(data)) => {
            model.request_pending = false;
            let inodes = inodes_from_results(&data);
            model.last_known_scan = last_known_scan(&inodes);
            model.inodes = inodes;
            model.refetch_scheduled = true;
            InodeAction::ScheduleFetch
        },
        InodeMsg::InodesFetched(Err(e)) => {
            model.request_pending = false;
            model.refetch_scheduled = true;
            InodeAction::ReportErrorAndScheduleFetch(e)
        },
        InodeMsg::OnFetchError(e) => InodeAction::LogError(e),
        InodeMsg::Destroy => {
            model.refetch_scheduled = false;
            let pending = model.request_pending;
            model.request_pending = false;
            model.destroyed = true;
            model.inodes = Vec::new();
            if pending {
                InodeAction::AbortRequest
            } else {
                InodeAction::Nothing
            }
        },
        InodeMsg::Noop => InodeAction::Nothing,
    }
}

} // verus!
