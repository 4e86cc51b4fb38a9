use graphstore_pg::datastore::PostgresDatastore;
use graphstore_pg::error::{backend_error_description, unexpected_from_backend, unexpected_from_pool, BackendError, Error};
use graphstore_pg::model::{Edge, Vertex, Weight};
use graphstore_pg::outcome::{first_or, first_row, or_unexpected, require_row, touched_row};
use graphstore_pg::transaction::{PostgresTransaction, SavepointAction};
use serde_json::Value;
use uuid::Uuid;

fn id(n: u128) -> Uuid {
    Uuid::from_u128(n)
}

fn weight(w: f32) -> Weight {
    Weight::from_bits(w.to_bits())
}

fn db(code: &str, message: &str, detail: Option<&str>) -> BackendError {
    BackendError::Db { code: code.to_string(), message: message.to_string(), detail: detail.map(|d| d.to_string()) }
}

fn trans() -> PostgresTransaction {
    PostgresTransaction::new(id(9))
}

fn store() -> PostgresDatastore {
    PostgresDatastore::new(Some(1), String::new(), "pepper".to_string())
}

const IO_TEXT: &str = "Could not communicate with the database instance";

#[test]
fn description_of_a_database_error_with_detail() {
    let err = db("23505", "duplicate key value", Some("Key (id) already exists."));
    assert_eq!(backend_error_description(&err), "[23505] duplicate key value: Key (id) already exists.");
}

#[test]
fn description_of_a_database_error_without_detail() {
    assert_eq!(backend_error_description(&db("42P01", "relation does not exist", None)), "[42P01] relation does not exist");
    assert_eq!(backend_error_description(&db("", "", None)), "[] ");
    assert_eq!(backend_error_description(&db("", "", Some(""))), "[] : ");
}

#[test]
fn description_of_a_connection_failure() {
    assert_eq!(backend_error_description(&BackendError::Io), IO_TEXT);
}

#[test]
fn backend_failures_become_unexpected() {
    assert_eq!(unexpected_from_backend(&BackendError::Io), Error::Unexpected(IO_TEXT.to_string()));
    assert_eq!(
        unexpected_from_backend(&db("57014", "canceled", None)),
        Error::Unexpected("[57014] canceled".to_string())
    );
}

#[test]
fn pool_failure_becomes_unexpected() {
    assert_eq!(
        unexpected_from_pool("timed out waiting for connection"),
        Error::Unexpected("Could not fetch connection: timed out waiting for connection".to_string())
    );
}

#[test]
fn error_messages() {
    assert_eq!(Error::VertexDoesNotExist.message(), "Vertex does not exist");
    assert_eq!(Error::EdgeDoesNotExist.message(), "Edge does not exist");
    assert_eq!(Error::AccountNotFound.message(), "Account not found");
    assert_eq!(Error::MetadataDoesNotExist.message(), "Metadata does not exist");
    assert_eq!(Error::WeightOutOfRange.message(), "Weight out of range");
    assert_eq!(Error::OffsetOutOfRange.message(), "Offset out of range");
    assert_eq!(Error::LimitOutOfRange.message(), "Limit out of range");
    assert_eq!(Error::Unexpected("boom".to_string()).message(), "Unexpected error: boom");
}

#[test]
fn first_row_helpers() {
    assert_eq!(first_or(vec![3, 4, 5], Error::EdgeDoesNotExist), Ok(3));
    assert_eq!(first_or(Vec::<i32>::new(), Error::EdgeDoesNotExist), Err(Error::EdgeDoesNotExist));
    assert_eq!(require_row(2, Error::AccountNotFound), Ok(()));
    assert_eq!(require_row(0, Error::AccountNotFound), Err(Error::AccountNotFound));
    assert_eq!(first_row(Ok(vec!["a", "b"]), Error::VertexDoesNotExist), Ok("a"));
    assert_eq!(first_row(Ok(Vec::<u8>::new()), Error::VertexDoesNotExist), Err(Error::VertexDoesNotExist));
    assert_eq!(first_row::<u8>(Err(BackendError::Io), Error::VertexDoesNotExist), Err(Error::Unexpected(IO_TEXT.to_string())));
    assert_eq!(touched_row(Ok(1), Error::MetadataDoesNotExist), Ok(()));
    assert_eq!(touched_row(Ok(0), Error::MetadataDoesNotExist), Err(Error::MetadataDoesNotExist));
    assert_eq!(touched_row(Err(db("XX000", "m", None)), Error::MetadataDoesNotExist), Err(Error::Unexpected("[XX000] m".to_string())));
    assert_eq!(or_unexpected(Ok::<u8, BackendError>(7)), Ok(7));
    assert_eq!(or_unexpected::<u8>(Err(BackendError::Io)), Err(Error::Unexpected(IO_TEXT.to_string())));
}

#[test]
fn get_vertex_responses() {
    let t = trans();
    assert_eq!(t.get_vertex_response(id(1), Ok(vec!["person".to_string()])), Ok(Vertex { id: id(1), t: "person".to_string() }));
    assert_eq!(
        t.get_vertex_response(id(1), Ok(vec!["person".to_string(), "robot".to_string()])),
        Ok(Vertex { id: id(1), t: "person".to_string() })
    );
    assert_eq!(t.get_vertex_response(id(1), Ok(vec![])), Err(Error::VertexDoesNotExist));
    assert_eq!(t.get_vertex_response(id(1), Err(BackendError::Io)), Err(Error::Unexpected(IO_TEXT.to_string())));
}

#[test]
fn create_vertex_responses() {
    let t = trans();
    assert_eq!(t.create_vertex_response(id(1), Ok(1)), Ok(id(1)));
    assert_eq!(t.create_vertex_response(id(1), Ok(0)), Ok(id(1)));
    assert_eq!(
        t.create_vertex_response(id(1), Err(db("23503", "no such owner", None))),
        Err(Error::Unexpected("[23503] no such owner".to_string()))
    );
}

#[test]
fn vertex_update_responses() {
    let t = trans();
    assert_eq!(t.vertex_update_response(Ok(1)), Ok(()));
    assert_eq!(t.vertex_update_response(Ok(0)), Err(Error::VertexDoesNotExist));
    assert_eq!(t.vertex_update_response(Err(BackendError::Io)), Err(Error::Unexpected(IO_TEXT.to_string())));
}

#[test]
fn get_edge_responses() {
    let t = trans();
    assert_eq!(
        t.get_edge_response(id(1), "knows".to_string(), id(2), Ok(vec![weight(0.5)])),
        Ok(Edge { outbound_id: id(1), t: "knows".to_string(), inbound_id: id(2), weight: weight(0.5) })
    );
    assert_eq!(t.get_edge_response(id(1), "knows".to_string(), id(2), Ok(vec![])), Err(Error::EdgeDoesNotExist));
    assert_eq!(
        t.get_edge_response(id(1), "knows".to_string(), id(2), Err(BackendError::Io)),
        Err(Error::Unexpected(IO_TEXT.to_string()))
    );
}

#[test]
fn set_edge_commits_its_savepoint_on_success() {
    assert_eq!(trans().set_edge_response(Ok(1)), (Ok(()), SavepointAction::Commit));
    assert_eq!(trans().set_edge_response(Ok(2)), (Ok(()), SavepointAction::Commit));
}

#[test]
fn set_edge_rolls_back_when_a_vertex_is_missing() {
    let t = trans();
    assert_eq!(t.set_edge_response(Ok(0)), (Err(Error::VertexDoesNotExist), SavepointAction::Rollback));
    assert_eq!(
        t.set_edge_response(Err(db("23502", "null value in column", None))),
        (Err(Error::VertexDoesNotExist), SavepointAction::Rollback)
    );
    assert_eq!(
        t.set_edge_response(Err(db("23503", "violates foreign key constraint", Some("d")))),
        (Err(Error::VertexDoesNotExist), SavepointAction::Rollback)
    );
}

#[test]
fn set_edge_rolls_back_on_other_failures() {
    let t = trans();
    assert_eq!(
        t.set_edge_response(Err(db("23505", "duplicate key", Some("detail is left out")))),
        (Err(Error::Unexpected("Unknown database error: duplicate key".to_string())), SavepointAction::Rollback)
    );
    assert_eq!(
        t.set_edge_response(Err(db("2350", "short code", None))),
        (Err(Error::Unexpected("Unknown database error: short code".to_string())), SavepointAction::Rollback)
    );
    assert_eq!(
        t.set_edge_response(Err(BackendError::Io)),
        (Err(Error::Unexpected("Database I/O error".to_string())), SavepointAction::Rollback)
    );
}

#[test]
fn delete_edge_responses() {
    let t = trans();
    assert_eq!(t.delete_edge_response(Ok(1)), Ok(()));
    assert_eq!(t.delete_edge_response(Ok(0)), Err(Error::EdgeDoesNotExist));
    assert_eq!(t.delete_edge_response(Err(BackendError::Io)), Err(Error::Unexpected(IO_TEXT.to_string())));
}

#[test]
fn edge_count_responses() {
    let t = trans();
    assert_eq!(t.get_edge_count_response(Ok(vec![0])), Ok(0));
    assert_eq!(t.get_edge_count_response(Ok(vec![42])), Ok(42));
    assert_eq!(t.get_edge_count_response(Err(BackendError::Io)), Err(Error::Unexpected(IO_TEXT.to_string())));
}

#[test]
fn fill_edges_keeps_the_order_of_the_rows() {
    let t = trans();
    let rows = vec![(id(3), weight(1.0)), (id(2), weight(-0.5)), (id(4), weight(0.0))];
    assert_eq!(
        t.fill_edges(rows, id(1), "knows".to_string()),
        Ok(vec![
            Edge { outbound_id: id(1), t: "knows".to_string(), inbound_id: id(3), weight: weight(1.0) },
            Edge { outbound_id: id(1), t: "knows".to_string(), inbound_id: id(2), weight: weight(-0.5) },
            Edge { outbound_id: id(1), t: "knows".to_string(), inbound_id: id(4), weight: weight(0.0) },
        ])
    );
    assert_eq!(t.fill_edges(vec![], id(1), "knows".to_string()), Ok(vec![]));
}

#[test]
fn edges_responses() {
    let t = trans();
    assert_eq!(
        t.edges_response(id(1), "knows".to_string(), Ok(vec![(id(2), weight(0.5))])),
        Ok(vec![Edge { outbound_id: id(1), t: "knows".to_string(), inbound_id: id(2), weight: weight(0.5) }])
    );
    assert_eq!(t.edges_response(id(1), "knows".to_string(), Ok(vec![])), Ok(vec![]));
    assert_eq!(
        t.edges_response(id(1), "knows".to_string(), Err(BackendError::Io)),
        Err(Error::Unexpected(IO_TEXT.to_string()))
    );
}

#[test]
fn metadata_responses() {
    let t = trans();
    let doc = Value::Array(vec![Value::Bool(true), Value::String("x".to_string())]);
    assert_eq!(t.handle_get_metadata_results(Ok(vec![doc.clone(), Value::Null])), Ok(doc));
    assert_eq!(t.handle_get_metadata_results(Ok(vec![])), Err(Error::MetadataDoesNotExist));
    assert_eq!(t.handle_get_metadata_results(Err(BackendError::Io)), Err(Error::Unexpected(IO_TEXT.to_string())));
    assert_eq!(t.handle_update_metadata_results(Ok(1)), Ok(()));
    assert_eq!(t.handle_update_metadata_results(Ok(0)), Err(Error::MetadataDoesNotExist));
    assert_eq!(t.handle_update_metadata_results(Err(BackendError::Io)), Err(Error::Unexpected(IO_TEXT.to_string())));
}

#[test]
fn account_responses() {
    let ds = store();
    assert_eq!(ds.has_account_response(Ok(1)), Ok(true));
    assert_eq!(ds.has_account_response(Ok(0)), Ok(false));
    assert_eq!(ds.has_account_response(Err(BackendError::Io)), Err(Error::Unexpected(IO_TEXT.to_string())));
    assert_eq!(ds.delete_account_response(Ok(1)), Ok(()));
    assert_eq!(ds.delete_account_response(Ok(0)), Err(Error::AccountNotFound));
    assert_eq!(ds.create_account_response(id(1), "s3cret".to_string(), Ok(1)), Ok((id(1), "s3cret".to_string())));
    assert_eq!(
        ds.create_account_response(id(1), "s3cret".to_string(), Err(db("23505", "duplicate", None))),
        Err(Error::Unexpected("[23505] duplicate".to_string()))
    );
}

#[test]
fn auth_responses() {
    let ds = store();
    assert_eq!(ds.auth_salt_response(Ok(vec!["salt".to_string()])), Ok("salt".to_string()));
    assert_eq!(ds.auth_salt_response(Ok(vec!["first".to_string(), "second".to_string()])), Ok("first".to_string()));
    assert_eq!(ds.auth_salt_response(Ok(vec![])), Ok("00000000000000000000000000000000".to_string()));
    assert_eq!(ds.auth_salt_response(Err(BackendError::Io)), Err(Error::Unexpected(IO_TEXT.to_string())));
    assert_eq!(ds.auth_check_response(Ok(1)), Ok(true));
    assert_eq!(ds.auth_check_response(Ok(0)), Ok(false));
    assert_eq!(ds.auth_check_response(Err(BackendError::Io)), Err(Error::Unexpected(IO_TEXT.to_string())));
}
