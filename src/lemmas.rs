use vstd::prelude::*;

use crate::error::AppError;
use crate::handler::{
    create_outcome, delete_outcome, get_outcome, insert_of, merged, page_of, text_or, update_plan,
    window, NoteUpdateView, STATUS_CREATED, STATUS_NO_CONTENT, STATUS_OK,
};
use crate::model::{NoteView, StoreFailure};
use crate::schema::{CreateNoteView, FilterOptions, UpdateNoteView};

verus! {

/// A create whose insert breaks the unique constraint on `title` is answered
/// with Conflict, status 409 and the message that names the clash; no other
/// outcome of the insert is answered with Conflict.
pub proof fn lemma_duplicate_title_conflict(r: Result<NoteView, StoreFailure>)
    ensures
        (create_outcome(r) == Err::<(u16, NoteView), AppError>(AppError::Conflict))
            <==> (r == Err::<NoteView, StoreFailure>(StoreFailure::UniqueViolation)),
        AppError::Conflict.status_spec() == 409,
        AppError::Conflict.message_spec() == "Note with that title already exists"@,
{
}

/// A note created from `body` and then looked up by its id comes back with
/// the title and content of `body`, and with its category, or "" where
/// `body` had none. `row` is the row that the database stored from the
/// insert's columns, with the id and timestamps it assigned.
pub proof fn lemma_create_then_get(body: CreateNoteView, row: NoteView)
    requires
        row.title == insert_of(body).title,
        row.content == insert_of(body).content,
        row.category == Some(insert_of(body).category),
    ensures
        create_outcome(Ok(row)) == Ok::<(u16, NoteView), AppError>((STATUS_CREATED, row)),
        get_outcome(Ok(row)) == Ok::<(u16, NoteView), AppError>((STATUS_OK, row)),
        row.title == body.title,
        row.content == body.content,
        row.category == Some(text_or(body.category, seq![])),
{
}

/// An update with an empty body writes back the stored title, content,
/// category and published flag of the note unchanged, and stamps it with the
/// time of the write, which is not before its previous stamp unless the clock
/// went back.
pub proof fn lemma_empty_update_keeps_note(n: NoteView, now: i64)
    requires
        n.category is Some,
        n.published is Some,
        n.updated_at matches Some(t) ==> t <= now,
    ensures
        ({
            let empty = UpdateNoteView { title: None, content: None, category: None, published: None };
            let u = merged(n, empty, now);
            &&& update_plan(Ok(n), empty, now) == Ok::<NoteUpdateView, AppError>(u)
            &&& u.id == n.id
            &&& u.title == n.title
            &&& u.content == n.content
            &&& Some(u.category) == n.category
            &&& Some(u.published) == n.published
            &&& u.updated_at == now
            &&& (n.updated_at matches Some(t) ==> t <= u.updated_at)
        }),
{
}

/// A delete that removes no row is answered with NotFound (404), one that
/// removes a row with 204, and a later lookup of an id whose row is gone is
/// answered with NotFound.
pub proof fn lemma_delete_outcome(removed: u64)
    ensures
        removed == 0 ==> delete_outcome(Ok(removed)) == Err::<u16, AppError>(AppError::NotFound),
        removed > 0 ==> delete_outcome(Ok(removed)) == Ok::<u16, AppError>(STATUS_NO_CONTENT),
        get_outcome(Err(StoreFailure::RowNotFound)) == Err::<(u16, NoteView), AppError>(AppError::NotFound),
        AppError::NotFound.status_spec() == 404,
{
}

/// Pages `page` and `page + 1` of one page size, read from rows in id order,
/// follow each other: the second window starts where the first ends, the two
/// pages together are the rows from the first offset on, up to twice the page
/// size, and where the rows are distinct the pages share none.
pub proof fn lemma_consecutive_pages<A>(rows: Seq<A>, page: usize, limit: usize)
    requires
        page >= 1,
        page < usize::MAX,
        window(FilterOptions { page: Some((page + 1) as usize), limit: Some(limit) }) is Some,
    ensures
        ({
            let first = window(FilterOptions { page: Some(page), limit: Some(limit) });
            let second = window(FilterOptions { page: Some((page + 1) as usize), limit: Some(limit) });
            &&& first is Some
            &&& first->Some_0.0 == limit
            &&& second->Some_0.0 == limit
            &&& second->Some_0.1 == first->Some_0.1 + limit
        }),
        ({
            let offset = (page - 1) * limit;
            let p1 = page_of(rows, limit as int, offset);
            let p2 = page_of(rows, limit as int, offset + limit);
            let lo = if offset < rows.len() { offset } else { rows.len() as int };
            let hi = if offset + 2 * limit < rows.len() { offset + 2 * limit } else { rows.len() as int };
            &&& p1 + p2 =~= rows.subrange(lo, hi)
            &&& rows.no_duplicates() ==> forall|i: int, j: int|
                0 <= i < p1.len() && 0 <= j < p2.len() ==> p1[i] != p2[j]
        }),
{
    let l = limit as int;
    let p = page as int;
    assert(p * l == (p - 1) * l + l) by (nonlinear_arith);
    assert((p - 1) * l >= 0) by (nonlinear_arith)
        requires p >= 1, l >= 0;
    let offset = (p - 1) * l;
    let p1 = page_of(rows, l, offset);
    let p2 = page_of(rows, l, offset + l);
    let s1 = if offset < rows.len() { offset } else { rows.len() as int };
    let e1 = if offset + l < rows.len() { offset + l } else { rows.len() as int };
    let e2 = if offset + 2 * l < rows.len() { offset + 2 * l } else { rows.len() as int };
    assert(p1 =~= rows.subrange(s1, e1));
    assert(p2 =~= rows.subrange(e1, e2));
    assert(p1 + p2 =~= rows.subrange(s1, e2));
    if rows.no_duplicates() {
        assert forall|i: int, j: int| 0 <= i < p1.len() && 0 <= j < p2.len() implies p1[i] != p2[j] by {
            assert(p1[i] == rows[s1 + i]);
            assert(p2[j] == rows[e1 + j]);
        }
    }
}

} // verus!
