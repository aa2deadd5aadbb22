use vstd::prelude::*;

verus! {

#[verifier::external_type_specification]
#[verifier::external_body]
pub struct ExUuid(uuid::Uuid);

/// A note as the notes table stores it. The database assigns `id` and the
/// two timestamps; timestamps are microseconds since the Unix epoch. The
/// table allows `category`, `published` and the timestamps to be null.
pub struct NoteModel {
    pub id: uuid::Uuid,
    pub title: String,
    pub content: String,
    pub category: Option<String>,
    pub published: Option<bool>,
    pub created_at: Option<i64>,
    pub updated_at: Option<i64>,
}

pub ghost struct NoteView {
    pub id: uuid::Uuid,
    pub title: Seq<char>,
    pub content: Seq<char>,
    pub category: Option<Seq<char>>,
    pub published: Option<bool>,
    pub created_at: Option<i64>,
    pub updated_at: Option<i64>,
}

pub open spec fn opt_text(o: Option<String>) -> Option<Seq<char>> {
    match o {
        Some(s) => Some(s@),
        None => None,
    }
}

impl View for NoteModel {
    type V = NoteView;

    open spec fn view(&self) -> NoteView {
        NoteView {
            id: self.id,
            title: self.title@,
            content: self.content@,
            category: opt_text(self.category),
            published: self.published,
            created_at: self.created_at,
            updated_at: self.updated_at,
        }
    }
}

/// How a database call failed, as far as the handlers care.
#[derive(Clone, Copy, Debug, PartialEq, Eq, Structural)]
pub enum StoreFailure {
    /// A query that must return one row returned none.
    RowNotFound,
    /// A write broke the unique constraint on `title`.
    UniqueViolation,
    /// Any other failure: connection, protocol, decoding.
    Other,
}

/// The outcome of a single-row query, seen through the note's view.
pub open spec fn row_view(r: Result<NoteModel, StoreFailure>) -> Result<NoteView, StoreFailure> {
    match r {
        Ok(n) => Ok(n@),
        Err(e) => Err(e),
    }
}

} // verus!
