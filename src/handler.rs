use vstd::prelude::*;

use crate::error::AppError;
use crate::model::{opt_text, row_view, NoteModel, NoteView, StoreFailure};
use crate::schema::{CreateNoteSchema, CreateNoteView, FilterOptions, UpdateNoteSchema, UpdateNoteView};

verus! {

pub const STATUS_OK: u16 = 200;

pub const STATUS_CREATED: u16 = 201;

pub const STATUS_NO_CONTENT: u16 = 204;

/// Page size used when the list request names none.
pub const DEFAULT_LIMIT: usize = 10;

/// Page used when the list request names none.
pub const DEFAULT_PAGE: usize = 1;

/// Largest value the database takes for `LIMIT` and `OFFSET` (a 32-bit integer).
pub const MAX_WINDOW: usize = 2147483647;

/// Success body that carries one note: `{status: "success", data: {note}}`.
pub struct NoteResponse {
    pub status: String,
    pub note: NoteModel,
}

/// Success body of the list operation: `{status: "success", results, notes}`.
pub struct NoteListResponse {
    pub status: String,
    pub results: usize,
    pub notes: Vec<NoteModel>,
}

/// Body of the health check: `{status: "success", message}`.
pub struct HealthResponse {
    pub status: String,
    pub message: String,
}

/// The row window a list request asks for.
pub struct ListQuery {
    pub limit: i32,
    pub offset: i32,
}

/// Column values of an insert.
pub struct NewNote {
    pub title: String,
    pub content: String,
    pub category: String,
}

pub ghost struct NewNoteView {
    pub title: Seq<char>,
    pub content: Seq<char>,
    pub category: Seq<char>,
}

impl View for NewNote {
    type V = NewNoteView;

    open spec fn view(&self) -> NewNoteView {
        NewNoteView { title: self.title@, content: self.content@, category: self.category@ }
    }
}

/// Column values of an update of the row `id`.
pub struct NoteUpdate {
    pub id: uuid::Uuid,
    pub title: String,
    pub content: String,
    pub category: String,
    pub published: bool,
    pub updated_at: i64,
}

pub ghost struct NoteUpdateView {
    pub id: uuid::Uuid,
    pub title: Seq<char>,
    pub content: Seq<char>,
    pub category: Seq<char>,
    pub published: bool,
    pub updated_at: i64,
}

impl View for NoteUpdate {
    type V = NoteUpdateView;

    open spec fn view(&self) -> NoteUpdateView {
        NoteUpdateView {
            id: self.id,
            title: self.title@,
            content: self.content@,
            category: self.category@,
            published: self.published,
            updated_at: self.updated_at,
        }
    }
}

pub open spec fn text_or(o: Option<Seq<char>>, d: Seq<char>) -> Seq<char> {
    match o {
        Some(s) => s,
        None => d,
    }
}

pub open spec fn flag_or(o: Option<bool>, d: bool) -> bool {
    match o {
        Some(b) => b,
        None => d,
    }
}

/// A one-note reply, seen through the note's view.
pub open spec fn reply_view(r: Result<(u16, NoteResponse), AppError>) -> Result<(u16, NoteView), AppError> {
    match r {
        Ok((code, resp)) => Ok((code, resp.note@)),
        Err(e) => Err(e),
    }
}

/// Every success reply carries the literal `"success"`.
pub open spec fn success_envelope(r: Result<(u16, NoteResponse), AppError>) -> bool {
    r matches Ok((_, resp)) ==> resp.status@ == "success"@
}

/// The window `(limit, offset)` asked of the database, or `None` where the
/// request is rejected: a page below 1, or a window the database cannot take.
pub open spec fn window(opts: FilterOptions) -> Option<(int, int)> {
    let limit: int = match opts.limit {
        Some(l) => l as int,
        None => DEFAULT_LIMIT as int,
    };
    let page: int = match opts.page {
        Some(p) => p as int,
        None => DEFAULT_PAGE as int,
    };
    if page >= 1 && limit <= MAX_WINDOW && (page - 1) * limit <= MAX_WINDOW {
        Some((limit, (page - 1) * limit))
    } else {
        None
    }
}

/// The rows that `LIMIT limit OFFSET offset` selects from `rows`.
pub open spec fn page_of<A>(rows: Seq<A>, limit: int, offset: int) -> Seq<A> {
    let start = if offset < rows.len() { offset } else { rows.len() as int };
    let end = if offset + limit < rows.len() { offset + limit } else { rows.len() as int };
    rows.subrange(start, end)
}

/// Insert columns of a create request: a missing category is stored as "".
pub open spec fn insert_of(b: CreateNoteView) -> NewNoteView {
    NewNoteView { title: b.title, content: b.content, category: text_or(b.category, seq![]) }
}

/// Reply to an insert: the created row with 201, a title clash as Conflict,
/// anything else as DatabaseError.
pub open spec fn create_outcome(r: Result<NoteView, StoreFailure>) -> Result<(u16, NoteView), AppError> {
    match r {
        Ok(n) => Ok((STATUS_CREATED, n)),
        Err(StoreFailure::UniqueViolation) => Err(AppError::Conflict),
        Err(_) => Err(AppError::DatabaseError),
    }
}

/// Reply to a lookup by id: the row with 200, no row as NotFound, a failed
/// query as DatabaseError.
pub open spec fn get_outcome(r: Result<NoteView, StoreFailure>) -> Result<(u16, NoteView), AppError> {
    match r {
        Ok(n) => Ok((STATUS_OK, n)),
        Err(StoreFailure::RowNotFound) => Err(AppError::NotFound),
        Err(_) => Err(AppError::DatabaseError),
    }
}

/// The columns an update writes: each field of the body that is present,
/// else the stored value. A null stored category reads as "" and a null
/// stored `published` as false.
pub open spec fn merged(n: NoteView, b: UpdateNoteView, now: i64) -> NoteUpdateView {
    NoteUpdateView {
        id: n.id,
        title: text_or(b.title, n.title),
        content: text_or(b.content, n.content),
        category: text_or(b.category, text_or(n.category, seq![])),
        published: flag_or(b.published, flag_or(n.published, false)),
        updated_at: now,
    }
}

/// What an update does once the stored row has been looked up.
pub open spec fn update_plan(fetched: Result<NoteView, StoreFailure>, b: UpdateNoteView, now: i64) -> Result<NoteUpdateView, AppError> {
    match fetched {
        Ok(n) => Ok(merged(n, b, now)),
        Err(StoreFailure::RowNotFound) => Err(AppError::NotFound),
        Err(_) => Err(AppError::DatabaseError),
    }
}

pub open spec fn plan_view(r: Result<NoteUpdate, AppError>) -> Result<NoteUpdateView, AppError> {
    match r {
        Ok(u) => Ok(u@),
        Err(e) => Err(e),
    }
}

/// Reply to the write of an update: the written row with 200, any failure as
/// DatabaseError.
pub open spec fn write_outcome(r: Result<NoteView, StoreFailure>) -> Result<(u16, NoteView), AppError> {
    match r {
        Ok(n) => Ok((STATUS_OK, n)),
        Err(_) => Err(AppError::DatabaseError),
    }
}

/// Reply to a delete, from the number of rows it removed.
pub open spec fn delete_outcome(r: Result<u64, StoreFailure>) -> Result<u16, AppError> {
    match r {
        Ok(0) => Err(AppError::NotFound),
        Ok(_) => Ok(STATUS_NO_CONTENT),
        Err(_) => Err(AppError::DatabaseError),
    }
}

fn success_reply(code: u16, note: NoteModel) -> (r: Result<(u16, NoteResponse), AppError>)
    ensures
        reply_view(r) == Ok::<(u16, NoteView), AppError>((code, note@)),
        success_envelope(r),
{
    Ok((code, NoteResponse { status: "success".to_owned(), note }))
}

/// The fixed reply of the health check: always 200, with no failure path.
pub fn health_check() -> (r: (u16, HealthResponse))
    ensures
        r.0 == STATUS_OK,
        r.1.status@ == "success"@,
        r.1.message@ == "Simple health checker service is running!"@,
{
    let body = HealthResponse {
        status: "success".to_owned(),
        message: "Simple health checker service is running!".to_owned(),
    };
    (STATUS_OK, body)
}

/// Relies on std's `SystemTime::now` and `duration_since(UNIX_EPOCH)` for the
/// wall clock, and on chrono's `DateTime::from_timestamp` and
/// `timestamp_micros` to turn it into microseconds since the Unix epoch.
/// `None` where the clock reads before the epoch or past chrono's range;
/// a value it returns is never negative.
#[verifier::external_body]
fn current_time_micros() -> (r: Option<i64>)
    ensures
        r matches Some(t) ==> t >= 0,
{
    let since = std::time::SystemTime::now().duration_since(std::time::UNIX_EPOCH).ok()?;
    let secs = i64::try_from(since.as_secs()).ok()?;
    chrono::DateTime::from_timestamp(secs, since.subsec_nanos()).map(|t| t.timestamp_micros())
}

/// Second step of an update, given the lookup of the stored row and the
/// time of the write: the columns to write, or the failure to reply with.
pub fn plan_update(fetched: Result<NoteModel, StoreFailure>, body: UpdateNoteSchema, now: i64) -> (r: Result<NoteUpdate, AppError>)
    ensures
        plan_view(r) == update_plan(row_view(fetched), body@, now),
{
    match fetched {
        Ok(note) => {
            let NoteModel { id, title: old_title, content: old_content, category: old_category, published: old_published, .. } = note;
            let UpdateNoteSchema { title, content, category, published } = body;
            let title = match title {
                Some(t) => t,
                None => old_title,
            };
            let content = match content {
                Some(c) => c,
                None => old_content,
            };
            let category = match category {
                Some(c) => c,
                None => match old_category {
                    Some(c) => c,
                    None => String::new(),
                },
            };
            let published = match published {
                Some(p) => p,
                None => match old_published {
                    Some(p) => p,
                    None => false,
                },
            };
            Ok(NoteUpdate { id, title, content, category, published, updated_at: now })
        },
        Err(StoreFailure::RowNotFound) => Err(AppError::NotFound),
        Err(_) => Err(AppError::DatabaseError),
    }
}

/// Second step of an update, stamped with the current time: as
/// `plan_update` for some non-negative `now`, or InternalServerError where
/// the stored row was found but the clock could not be read.
pub fn prepare_update(fetched: Result<NoteModel, StoreFailure>, body: UpdateNoteSchema) -> (r: Result<NoteUpdate, AppError>)
    ensures
        (fetched is Ok && r == Err::<NoteUpdate, AppError>(AppError::InternalServerError))
            || exists|now: i64| now >= 0 && plan_view(r) == update_plan(row_view(fetched), body@, now),
{
    let ghost fetched_view = row_view(fetched);
    let ghost body_view = body@;
    match fetched {
        Ok(note) => match current_time_micros() {
            Some(now) => {
                let r = plan_update(Ok(note), body, now);
                assert(now >= 0 && plan_view(r) == update_plan(fetched_view, body_view, now));
                r
            },
            None => Err(AppError::InternalServerError),
        },
        Err(StoreFailure::RowNotFound) => {
            let r = Err(AppError::NotFound);
            assert(plan_view(r) == update_plan(fetched_view, body_view, 0));
            r
        },
        Err(_) => {
            let r = Err(AppError::DatabaseError);
            assert(plan_view(r) == update_plan(fetched_view, body_view, 0));
            r
        },
    }
}

/// Reply to the write step of an update.
pub fn update_response(result: Result<NoteModel, StoreFailure>) -> (r: Result<(u16, NoteResponse), AppError>)
    ensures
        reply_view(r) == write_outcome(row_view(result)),
        success_envelope(r),
{
    match result {
        Ok(note) => success_reply(STATUS_OK, note),
        Err(_) => Err(AppError::DatabaseError),
    }
}

/// Insert columns of a create request.
pub fn create_params(body: CreateNoteSchema) -> (r: NewNote)
    ensures
        r@ == insert_of(body@),
{
    let CreateNoteSchema { title, content, category } = body;
    let category = match category {
        Some(c) => c,
        None => String::new(),
    };
    NewNote { title, content, category }
}

/// Reply to the insert of a create request.
pub fn create_response(result: Result<NoteModel, StoreFailure>) -> (r: Result<(u16, NoteResponse), AppError>)
    ensures
        reply_view(r) == create_outcome(row_view(result)),
        success_envelope(r),
{
    match result {
        Ok(note) => success_reply(STATUS_CREATED, note),
        Err(StoreFailure::UniqueViolation) => Err(AppError::Conflict),
        Err(_) => Err(AppError::DatabaseError),
    }
}

/// Reply to a lookup by id.
pub fn get_response(result: Result<NoteModel, StoreFailure>) -> (r: Result<(u16, NoteResponse), AppError>)
    ensures
        reply_view(r) == get_outcome(row_view(result)),
        success_envelope(r),
{
    match result {
        Ok(note) => success_reply(STATUS_OK, note),
        Err(StoreFailure::RowNotFound) => Err(AppError::NotFound),
        Err(_) => Err(AppError::DatabaseError),
    }
}

/// Reply to a delete, from the number of rows it removed.
pub fn delete_response(result: Result<u64, StoreFailure>) -> (r: Result<u16, AppError>)
    ensures
        r == delete_outcome(result),
{
    match result {
        Ok(0) => Err(AppError::NotFound),
        Ok(_) => Ok(STATUS_NO_CONTENT),
        Err(_) => Err(AppError::DatabaseError),
    }
}

/// The window a list request asks for, with the defaults applied:
/// `offset = (page - 1) * limit`.
pub fn list_query(opts: FilterOptions) -> (r: Result<ListQuery, AppError>)
    ensures
        match window(opts) {
            Some((limit, offset)) => r matches Ok(q) && q.limit == limit && q.offset == offset,
            None => r == Err::<ListQuery, AppError>(AppError::BadRequest),
        },
{
    let limit: usize = match opts.limit {
        Some(l) => l,
        None => DEFAULT_LIMIT,
    };
    let page: usize = match opts.page {
        Some(p) => p,
        None => DEFAULT_PAGE,
    };
    if page == 0 || limit > MAX_WINDOW {
        return Err(AppError::BadRequest);
    }
    match (page - 1).checked_mul(limit) {
        Some(offset) => {
            if offset > MAX_WINDOW {
                Err(AppError::BadRequest)
            } else {
                Ok(ListQuery { limit: limit as i32, offset: offset as i32 })
            }
        },
        None => Err(AppError::BadRequest),
    }
}

/// Reply to the range query of a list request: `results` is the number of
/// rows returned, not the size of the table.
pub fn list_response(result: Result<Vec<NoteModel>, StoreFailure>) -> (r: Result<(u16, NoteListResponse), AppError>)
    ensures
        match result {
            Ok(rows) => r matches Ok((code, resp)) && code == STATUS_OK && resp.status@ == "success"@
                && resp.results == rows.len() && resp.notes@ == rows@,
            Err(_) => r == Err::<(u16, NoteListResponse), AppError>(AppError::DatabaseError),
        },
{
    match result {
        Ok(notes) => {
            let results = notes.len();
            Ok((STATUS_OK, NoteListResponse { status: "success".to_owned(), results, notes }))
        },
        Err(_) => Err(AppError::DatabaseError),
    }
}

} // verus!
