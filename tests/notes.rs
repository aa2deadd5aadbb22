use postgresql_with_axum::error::AppError;
use postgresql_with_axum::handler::{
    create_params, create_response, delete_response, get_response, health_check, list_query,
    list_response, plan_update, prepare_update, update_response,
};
use postgresql_with_axum::model::{NoteModel, StoreFailure};
use postgresql_with_axum::schema::{CreateNoteSchema, FilterOptions, UpdateNoteSchema};
use uuid::Uuid;

fn note(n: u128, title: &str, category: Option<&str>, published: Option<bool>) -> NoteModel {
    NoteModel {
        id: Uuid::from_u128(n),
        title: title.to_string(),
        content: format!("content of {}", title),
        category: category.map(|c| c.to_string()),
        published,
        created_at: Some(1_000),
        updated_at: Some(2_000),
    }
}

fn empty_update() -> UpdateNoteSchema {
    UpdateNoteSchema { title: None, content: None, category: None, published: None }
}

#[test]
fn error_kinds_map_to_status_and_message() {
    let cases = [
        (AppError::DatabaseError, 500, "Failed to action on database"),
        (AppError::NotFound, 404, "Resource not found"),
        (AppError::BadRequest, 400, "Bad request"),
        (AppError::InternalServerError, 500, "Internal server error"),
        (AppError::Conflict, 409, "Note with that title already exists"),
    ];
    for (kind, status, message) in cases {
        assert_eq!(kind.status_code(), status);
        assert_eq!(kind.message(), message);
        let (code, body) = kind.into_response();
        assert_eq!(code, status);
        assert_eq!(body.status, "Error");
        assert_eq!(body.error_message.as_deref(), Some(message));
    }
}

#[test]
fn health_check_is_fixed() {
    let (code, r) = health_check();
    assert_eq!(code, 200);
    assert_eq!(r.status, "success");
    assert_eq!(r.message, "Simple health checker service is running!");
}

#[test]
fn list_query_applies_defaults() {
    let q = list_query(FilterOptions { page: None, limit: None }).ok().unwrap();
    assert_eq!((q.limit, q.offset), (10, 0));
    let q = list_query(FilterOptions { page: Some(3), limit: None }).ok().unwrap();
    assert_eq!((q.limit, q.offset), (10, 20));
    let q = list_query(FilterOptions { page: Some(2), limit: Some(2) }).ok().unwrap();
    assert_eq!((q.limit, q.offset), (2, 2));
}

#[test]
fn list_query_rejects_bad_windows() {
    assert_eq!(list_query(FilterOptions { page: Some(0), limit: Some(5) }).err(), Some(AppError::BadRequest));
    assert_eq!(
        list_query(FilterOptions { page: Some(1), limit: Some(2_147_483_648) }).err(),
        Some(AppError::BadRequest)
    );
    assert_eq!(
        list_query(FilterOptions { page: Some(usize::MAX), limit: Some(2) }).err(),
        Some(AppError::BadRequest)
    );
    let q = list_query(FilterOptions { page: Some(2), limit: Some(2_147_483_647) }).ok().unwrap();
    assert_eq!((q.limit, q.offset), (2_147_483_647, 2_147_483_647));
    assert_eq!(list_query(FilterOptions { page: Some(3), limit: Some(2_147_483_647) }).err(), Some(AppError::BadRequest));
}

#[test]
fn list_response_counts_returned_rows() {
    let rows = vec![note(1, "a", None, None), note(2, "b", None, None)];
    let (code, resp) = list_response(Ok(rows)).ok().unwrap();
    assert_eq!(code, 200);
    assert_eq!(resp.status, "success");
    assert_eq!(resp.results, 2);
    assert_eq!(resp.notes[1].title, "b");
    let (_, empty) = list_response(Ok(Vec::new())).ok().unwrap();
    assert_eq!(empty.results, 0);
    assert_eq!(list_response(Err(StoreFailure::Other)).err(), Some(AppError::DatabaseError));
}

#[test]
fn pages_over_five_notes_are_disjoint_and_cover_first_four() {
    let rows: Vec<NoteModel> = (1..=5u128).map(|n| note(n, &format!("t{}", n), None, None)).collect();
    let mut seen = Vec::new();
    for page in 1..=2usize {
        let q = list_query(FilterOptions { page: Some(page), limit: Some(2) }).ok().unwrap();
        let start = (q.offset as usize).min(rows.len());
        let end = (q.offset as usize + q.limit as usize).min(rows.len());
        for r in &rows[start..end] {
            assert!(!seen.contains(&r.id));
            seen.push(r.id);
        }
    }
    let expected: Vec<Uuid> = (1..=4u128).map(Uuid::from_u128).collect();
    assert_eq!(seen, expected);
}

#[test]
fn create_params_default_category_to_empty() {
    let p = create_params(CreateNoteSchema { title: "A".to_string(), content: "B".to_string(), category: None });
    assert_eq!((p.title.as_str(), p.content.as_str(), p.category.as_str()), ("A", "B", ""));
    let p = create_params(CreateNoteSchema {
        title: "A".to_string(),
        content: "B".to_string(),
        category: Some("work".to_string()),
    });
    assert_eq!(p.category, "work");
}

#[test]
fn create_response_classifies_failures() {
    let (code, resp) = create_response(Ok(note(7, "x", Some(""), Some(false)))).ok().unwrap();
    assert_eq!(code, 201);
    assert_eq!(resp.status, "success");
    assert_eq!(resp.note.id, Uuid::from_u128(7));
    assert_eq!(create_response(Err(StoreFailure::UniqueViolation)).err(), Some(AppError::Conflict));
    assert_eq!(create_response(Err(StoreFailure::Other)).err(), Some(AppError::DatabaseError));
    assert_eq!(create_response(Err(StoreFailure::RowNotFound)).err(), Some(AppError::DatabaseError));
}

#[test]
fn test_create_note_success() {
    let body = CreateNoteSchema { title: "A".to_string(), content: "B".to_string(), category: None };
    let p = create_params(body);
    let stored = NoteModel {
        id: Uuid::from_u128(1),
        title: p.title,
        content: p.content,
        category: Some(p.category),
        published: Some(false),
        created_at: Some(10),
        updated_at: Some(10),
    };
    let (code, resp) = create_response(Ok(stored)).ok().unwrap();
    assert_eq!(code, 201);
    assert_eq!(resp.status, "success");
    assert_eq!(resp.note.title, "A");
    assert_eq!(resp.note.category.as_deref(), Some(""));
    assert_eq!(resp.note.published, Some(false));
    let again = create_response(Err(StoreFailure::UniqueViolation)).err().unwrap();
    let (code, err) = again.into_response();
    assert_eq!(code, 409);
    assert_eq!(err.status, "Error");
    assert_eq!(err.error_message.as_deref(), Some("Note with that title already exists"));
}

#[test]
fn created_note_round_trips_through_get() {
    let p = create_params(CreateNoteSchema {
        title: "T".to_string(),
        content: "C".to_string(),
        category: Some("k".to_string()),
    });
    let stored = NoteModel {
        id: Uuid::from_u128(9),
        title: p.title,
        content: p.content,
        category: Some(p.category),
        published: Some(false),
        created_at: Some(5),
        updated_at: Some(5),
    };
    let (code, resp) = get_response(Ok(stored)).ok().unwrap();
    assert_eq!(code, 200);
    assert_eq!(resp.status, "success");
    assert_eq!(resp.note.title, "T");
    assert_eq!(resp.note.content, "C");
    assert_eq!(resp.note.category.as_deref(), Some("k"));
}

#[test]
fn get_response_distinguishes_missing_row() {
    assert_eq!(get_response(Err(StoreFailure::RowNotFound)).err(), Some(AppError::NotFound));
    assert_eq!(get_response(Err(StoreFailure::Other)).err(), Some(AppError::DatabaseError));
}

#[test]
fn plan_update_merges_fields() {
    let body = UpdateNoteSchema {
        title: Some("new".to_string()),
        content: None,
        category: None,
        published: Some(true),
    };
    let u = plan_update(Ok(note(3, "old", Some("c"), Some(false))), body, 5_000).ok().unwrap();
    assert_eq!(u.id, Uuid::from_u128(3));
    assert_eq!(u.title, "new");
    assert_eq!(u.content, "content of old");
    assert_eq!(u.category, "c");
    assert!(u.published);
    assert_eq!(u.updated_at, 5_000);
}

#[test]
fn empty_update_keeps_stored_values() {
    let u = plan_update(Ok(note(4, "keep", Some("c"), Some(true))), empty_update(), 3_000).ok().unwrap();
    assert_eq!(u.title, "keep");
    assert_eq!(u.content, "content of keep");
    assert_eq!(u.category, "c");
    assert!(u.published);
    assert!(u.updated_at >= 2_000);
}

#[test]
fn update_of_null_columns_uses_defaults() {
    let u = plan_update(Ok(note(5, "n", None, None)), empty_update(), 1).ok().unwrap();
    assert_eq!(u.category, "");
    assert!(!u.published);
}

#[test]
fn update_of_missing_note_is_not_found() {
    assert_eq!(plan_update(Err(StoreFailure::RowNotFound), empty_update(), 1).err(), Some(AppError::NotFound));
    assert_eq!(plan_update(Err(StoreFailure::Other), empty_update(), 1).err(), Some(AppError::DatabaseError));
}

#[test]
fn prepare_update_stamps_current_time() {
    let u = prepare_update(Ok(note(6, "t", Some("c"), Some(false))), empty_update()).ok().unwrap();
    // the clock reads some time after 2020-01-01
    assert!(u.updated_at > 1_577_836_800_000_000);
    assert_eq!(u.title, "t");
    assert_eq!(prepare_update(Err(StoreFailure::RowNotFound), empty_update()).err(), Some(AppError::NotFound));
    assert_eq!(prepare_update(Err(StoreFailure::Other), empty_update()).err(), Some(AppError::DatabaseError));
}

#[test]
fn update_response_maps_write_failure() {
    let (code, resp) = update_response(Ok(note(8, "w", None, None))).ok().unwrap();
    assert_eq!(code, 200);
    assert_eq!(resp.status, "success");
    assert_eq!(update_response(Err(StoreFailure::RowNotFound)).err(), Some(AppError::DatabaseError));
    assert_eq!(update_response(Err(StoreFailure::UniqueViolation)).err(), Some(AppError::DatabaseError));
}

#[test]
fn delete_response_by_rows_affected() {
    assert_eq!(delete_response(Ok(0)), Err(AppError::NotFound));
    assert_eq!(delete_response(Ok(1)), Ok(204));
    assert_eq!(delete_response(Err(StoreFailure::Other)), Err(AppError::DatabaseError));
    assert_eq!(get_response(Err(StoreFailure::RowNotFound)).err().unwrap().status_code(), 404);
}
