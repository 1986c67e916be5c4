use rust_clean_architecture_v1::models::error::DatabaseError;
use rust_clean_architecture_v1::repositories::inserted_id;

#[test]
fn inserted_id_takes_the_returned_id() {
    assert_eq!(inserted_id(Some(5)), Ok(5));
    assert_eq!(inserted_id(Some(-3)), Ok(-3));
}

#[test]
fn inserted_id_without_an_id_is_row_not_found() {
    assert_eq!(
        inserted_id(None),
        Err(DatabaseError { detail: format!("{:?}", sqlx::Error::RowNotFound) })
    );
    assert_eq!(inserted_id(None), Err(DatabaseError { detail: "RowNotFound".to_string() }));
}
