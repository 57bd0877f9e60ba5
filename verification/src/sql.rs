//! The storage statements of the pipeline, built as parameterized queries:
//! fixed statement text with placeholders, and an ordered list of bound
//! values beside it. Caller-supplied filter text is never concatenated into
//! statement text — it travels only as a bound parameter, which is the
//! engine's injection-safety invariant.

use vstd::prelude::*;
use vstd::string::StringExecFns;
use crate::query::{Filters, QueryError, page_offset, PAGE_SIZE};
use crate::record::WriteJob;

verus! {

/// One value bound to a statement placeholder.
#[derive(Debug)]
pub enum Param {
    UInt(u64),
    Text(String),
}

/// The mathematical value of a bound parameter.
pub enum ParamView {
    UInt(u64),
    Text(Seq<char>),
}

impl View for Param {
    type V = ParamView;

    open spec fn view(&self) -> ParamView {
        match self {
            Param::UInt(u) => ParamView::UInt(*u),
            Param::Text(s) => ParamView::Text(s@),
        }
    }
}

/// The values of a parameter list, in binding order.
pub open spec fn params_view(ps: Seq<Param>) -> Seq<ParamView> {
    ps.map_values(|p: Param| p@)
}

/// A statement ready for the storage driver: fixed text and the values to
/// bind, in placeholder order.
#[derive(Debug)]
pub struct SqlQuery {
    pub text: String,
    pub params: Vec<Param>,
}

/// Idempotent creation of the identity table.
pub const IDENTITY_SCHEMA_SQL: &'static str = "\n    CREATE TABLE IF NOT EXISTS users (\n        id                      INTEGER PRIMARY KEY,\n        username                MEDIUMTEXT\n    )\n    ";

/// Idempotent creation of the event log table.
pub const LOG_SCHEMA_SQL: &'static str = "\n    CREATE TABLE IF NOT EXISTS tracking_data (\n        id                      INTEGER PRIMARY KEY AUTOINCREMENT,\n        user_id                 INTEGER,\n        time                    INTEGER,\n        status                  TINYTEXT,\n        activity                MEDIUMTEXT,\n        activity_description    MEDIUMTEXT\n    )\n    ";

/// Insertion of one event record; the log table assigns the id.
pub const INSERT_JOB_SQL: &'static str = "INSERT INTO tracking_data (user_id, time, status, activity, activity_description) VALUES (?1, ?2, ?3, ?4, ?5)";

/// Last-write-wins upsert of a subject's display name.
pub const UPSERT_NAME_SQL: &'static str = "INSERT OR REPLACE INTO users (id, username) VALUES (?1, ?2)";

/// Lookup of one subject's display name.
pub const SELECT_NAME_SQL: &'static str = "SELECT username FROM users WHERE id = ?1";

/// The bound values that write `job` into the log, in placeholder order.
pub fn insert_job_params(job: &WriteJob) -> (ps: Vec<Param>)
    ensures
        params_view(ps@) == seq![
            ParamView::UInt(job.user_id),
            ParamView::UInt(job.time),
            ParamView::Text(job.status@),
            ParamView::Text(job.activity@),
            ParamView::Text(job.activity_description@),
        ],
{
    let mut ps: Vec<Param> = Vec::new();
    ps.push(Param::UInt(job.user_id));
    ps.push(Param::UInt(job.time));
    ps.push(Param::Text(job.status.clone()));
    ps.push(Param::Text(job.activity.clone()));
    ps.push(Param::Text(job.activity_description.clone()));
    proof {
        assert(params_view(ps@) =~= seq![
            ParamView::UInt(job.user_id),
            ParamView::UInt(job.time),
            ParamView::Text(job.status@),
            ParamView::Text(job.activity@),
            ParamView::Text(job.activity_description@),
        ]);
    }
    ps
}

/// The bound values that upsert `name` for `id`, in placeholder order.
pub fn upsert_name_params(id: u64, name: &String) -> (ps: Vec<Param>)
    ensures
        params_view(ps@) == seq![ParamView::UInt(id), ParamView::Text(name@)],
{
    let mut ps: Vec<Param> = Vec::new();
    ps.push(Param::UInt(id));
    ps.push(Param::Text(name.clone()));
    proof {
        assert(params_view(ps@) =~= seq![ParamView::UInt(id), ParamView::Text(name@)]);
    }
    ps
}

/// The bound value that looks `id` up, in placeholder order.
pub fn select_name_params(id: u64) -> (ps: Vec<Param>)
    ensures
        params_view(ps@) == seq![ParamView::UInt(id)],
{
    let mut ps: Vec<Param> = Vec::new();
    ps.push(Param::UInt(id));
    proof {
        assert(params_view(ps@) =~= seq![ParamView::UInt(id)]);
    }
    ps
}

/// The text of the filtered page select for `f`: the fixed base, one fixed
/// clause per supplied criterion, and the window clause. Every criterion
/// value is a placeholder; none reaches the text.
pub open spec fn select_text(f: Filters) -> Seq<char> {
    "SELECT * FROM tracking_data WHERE id IS NOT NULL"@ + (if f.user_id is Some {
        " AND user_id = ?"@
    } else {
        Seq::<char>::empty()
    }) + (if f.status is Some {
        " AND status = ?"@
    } else {
        Seq::<char>::empty()
    }) + (if f.activity is Some {
        " AND activity = ?"@
    } else {
        Seq::<char>::empty()
    }) + (if f.activity_description is Some {
        " AND activity_description = ?"@
    } else {
        Seq::<char>::empty()
    }) + (if f.time_lt is Some {
        " AND time < ?"@
    } else {
        Seq::<char>::empty()
    }) + (if f.time_mt is Some {
        " AND time > ?"@
    } else {
        Seq::<char>::empty()
    }) + " LIMIT ? OFFSET ?"@
}

/// The singleton parameter for a supplied integer criterion.
pub open spec fn opt_uint_param(o: Option<u64>) -> Seq<ParamView> {
    match o {
        Some(v) => seq![ParamView::UInt(v)],
        None => Seq::empty(),
    }
}

/// The singleton parameter for a supplied text criterion.
pub open spec fn opt_text_param(o: Option<String>) -> Seq<ParamView> {
    match o {
        Some(s) => seq![ParamView::Text(s@)],
        None => Seq::empty(),
    }
}

/// The bound values of the filtered page select, in placeholder order: one
/// per supplied criterion, then the page size and the page's offset.
pub open spec fn select_params(f: Filters, page: u64) -> Seq<ParamView> {
    opt_uint_param(f.user_id) + opt_text_param(f.status) + opt_text_param(f.activity)
        + opt_text_param(f.activity_description) + opt_uint_param(f.time_lt) + opt_uint_param(
        f.time_mt,
    ) + seq![ParamView::UInt(PAGE_SIZE), ParamView::UInt(page_offset(page) as u64)]
}

/// Build the filtered page select: the statement whose text is fixed up to
/// which criteria are supplied, whose window starts at
/// `(page - 1) * PAGE_SIZE`, and whose criterion values are all bound
/// parameters. A page number below 1 is invalid input, never clamped. The
/// offset must fit the driver's integer parameter.
#[verifier::rlimit(60)]
pub fn get_data(f: &Filters, page: u64) -> (r: Result<SqlQuery, QueryError>)
    requires
        page_offset(page) <= u64::MAX,
    ensures
        page == 0 <==> r is Err,
        page == 0 ==> r == Result::<SqlQuery, QueryError>::Err(QueryError::InvalidPageNumber),
        page >= 1 ==> (r matches Ok(q) && q.text@ == select_text(*f) && params_view(q.params@)
            == select_params(*f, page)),
{
    if page == 0 {
        return Err(QueryError::InvalidPageNumber);
    }
    let offset = (page - 1) * PAGE_SIZE;
    let mut text = String::new();
    let mut ps: Vec<Param> = Vec::new();
    text.append("SELECT * FROM tracking_data WHERE id IS NOT NULL");
    if let Some(u) = f.user_id {
        text.append(" AND user_id = ?");
        ps.push(Param::UInt(u));
    }
    if let Some(s) = &f.status {
        text.append(" AND status = ?");
        ps.push(Param::Text(s.clone()));
    }
    if let Some(a) = &f.activity {
        text.append(" AND activity = ?");
        ps.push(Param::Text(a.clone()));
    }
    if let Some(d) = &f.activity_description {
        text.append(" AND activity_description = ?");
        ps.push(Param::Text(d.clone()));
    }
    if let Some(t) = f.time_lt {
        text.append(" AND time < ?");
        ps.push(Param::UInt(t));
    }
    if let Some(t) = f.time_mt {
        text.append(" AND time > ?");
        ps.push(Param::UInt(t));
    }
    text.append(" LIMIT ? OFFSET ?");
    ps.push(Param::UInt(PAGE_SIZE));
    ps.push(Param::UInt(offset));
    proof {
        assert(text@ =~= select_text(*f));
        assert(params_view(ps@) =~= select_params(*f, page));
    }
    Ok(SqlQuery { text, params: ps })
}

} // verus!
