use scylla::cql_to_rust::FromRowError;
use scylla::transport::errors::{NewSessionError, QueryError};
use scylla_store::cache::PreparedCache;
use scylla_store::dto::{row_dto, row_dtos, rows_response, ResultDto, RowDto};
use scylla_store::entity::{map_query_rows, map_result_set, map_row, ColumnValue, RawRow, RowEntity};
use scylla_store::errors::{
    err_from_row, err_internal, err_new_session, err_no_access_to_storage, err_no_session,
    err_query, err_schema, ErrorKind, ServerError,
};
use scylla_store::statement::{
    err_execution, err_timeout, initialization_plan, insert_statement, select_all_statement, Statement,
    CREATE_KEYSPACE_CQL, CREATE_TABLE_CQL, INSERT_CQL, SELECT_ALL_CQL,
};
use scylla_store::storage::{Storage, DEFAULT_URI, POOL_SIZE_PER_HOST};

fn raw(a: i32, b: i32, c: &str) -> RawRow {
    RawRow {
        columns: vec![
            Some(ColumnValue::Int(a)),
            Some(ColumnValue::Int(b)),
            Some(ColumnValue::Text(c.to_string())),
        ],
    }
}

fn triple(e: &RowEntity) -> (i32, i32, String) {
    (e.a, e.b, e.c.clone())
}

#[test]
fn no_session_error_kind_and_text() {
    let e = err_no_session();
    assert_eq!(e.kind(), ErrorKind::NoSession);
    assert_eq!(e.message(), "session not initialized");
}

#[test]
fn no_access_error_kind_and_text() {
    let e = err_no_access_to_storage();
    assert_eq!(e.kind(), ErrorKind::NoAccessToStorage);
    assert_eq!(e.message(), "no access to storage");
}

#[test]
fn internal_error_carries_io_text() {
    let e = err_internal(std::io::Error::new(std::io::ErrorKind::Other, "socket in use"));
    assert_eq!(e.kind(), ErrorKind::Internal);
    assert_eq!(e.message(), "socket in use");
}

#[test]
fn driver_errors_keep_their_description() {
    let q = err_query(QueryError::TimeoutError);
    assert_eq!(q.kind(), ErrorKind::Query);
    assert_eq!(q.message(), format!("{:?}", QueryError::TimeoutError));
    let s = err_schema(QueryError::InvalidMessage("bad".to_string()));
    assert_eq!(s.kind(), ErrorKind::Schema);
    assert!(s.message().contains("bad"));
    let n = err_new_session(NewSessionError::EmptyKnownNodesList);
    assert_eq!(n.kind(), ErrorKind::Connection);
    assert_eq!(n.message(), "EmptyKnownNodesList");
    let r = err_from_row(FromRowError::WrongRowSize { expected: 3, actual: 2 });
    assert_eq!(r.kind(), ErrorKind::RowMapping);
    assert!(r.message().contains("WrongRowSize"));
}

#[test]
fn server_error_new_keeps_fields() {
    let e = ServerError::new(ErrorKind::Query, "x".to_string());
    assert_eq!(e.kind(), ErrorKind::Query);
    assert_eq!(e.message(), "x");
}

#[test]
fn map_row_reads_three_columns() {
    let e = map_row(&raw(1, 2, "abc")).unwrap();
    assert_eq!(triple(&e), (1, 2, "abc".to_string()));
}

#[test]
fn map_row_rejects_short_row() {
    let row = RawRow { columns: vec![Some(ColumnValue::Int(1)), Some(ColumnValue::Int(2))] };
    assert_eq!(map_row(&row).unwrap_err().kind(), ErrorKind::RowMapping);
}

#[test]
fn map_row_rejects_long_row() {
    let mut row = raw(1, 2, "abc");
    row.columns.push(Some(ColumnValue::Int(9)));
    assert_eq!(map_row(&row).unwrap_err().kind(), ErrorKind::RowMapping);
}

#[test]
fn map_row_rejects_wrong_types_and_nulls() {
    let swapped = RawRow {
        columns: vec![
            Some(ColumnValue::Text("abc".to_string())),
            Some(ColumnValue::Int(2)),
            Some(ColumnValue::Int(1)),
        ],
    };
    assert_eq!(map_row(&swapped).unwrap_err().kind(), ErrorKind::RowMapping);
    let null = RawRow { columns: vec![Some(ColumnValue::Int(1)), None, Some(ColumnValue::Text("c".to_string()))] };
    assert_eq!(map_row(&null).unwrap_err().kind(), ErrorKind::RowMapping);
    let other = RawRow {
        columns: vec![Some(ColumnValue::Int(1)), Some(ColumnValue::Other), Some(ColumnValue::Text("c".to_string()))],
    };
    assert_eq!(map_row(&other).unwrap_err().kind(), ErrorKind::RowMapping);
}

#[test]
fn empty_result_set_maps_to_no_rows() {
    let rows = map_result_set(&vec![]).unwrap();
    assert!(rows.is_empty());
}

#[test]
fn result_set_maps_in_order() {
    let rows = map_result_set(&vec![raw(1, 2, "abc"), raw(3, 4, "def")]).unwrap();
    let got: Vec<(i32, i32, String)> = rows.iter().map(triple).collect();
    assert_eq!(got, vec![(1, 2, "abc".to_string()), (3, 4, "def".to_string())]);
}

#[test]
fn short_row_fails_whole_result_set() {
    let short = RawRow { columns: vec![Some(ColumnValue::Int(5)), Some(ColumnValue::Int(6))] };
    let r = map_result_set(&vec![raw(1, 2, "abc"), short, raw(3, 4, "def")]);
    assert_eq!(r.unwrap_err().kind(), ErrorKind::RowMapping);
}

#[test]
fn statement_texts() {
    assert_eq!(Statement::CreateKeyspace.text(), CREATE_KEYSPACE_CQL);
    assert_eq!(Statement::CreateTable.text(), CREATE_TABLE_CQL);
    assert_eq!(select_all_statement().text(), SELECT_ALL_CQL);
    assert_eq!(SELECT_ALL_CQL, "SELECT a, b, c FROM ks.t");
    assert_eq!(INSERT_CQL, "INSERT INTO ks.t (a, b, c) VALUES (?, ?, ?)");
    assert!(CREATE_KEYSPACE_CQL.contains("'replication_factor' : 1"));
    assert!(CREATE_TABLE_CQL.contains("primary key (a, b)"));
}

#[test]
fn insert_statement_binds_three_values() {
    let s = insert_statement(1, 2, "abc".to_string());
    assert_eq!(s.text(), INSERT_CQL);
    assert!(!s.is_schema());
    let v = s.values();
    assert_eq!(v.len(), 3);
    assert!(matches!(v[0], Some(ColumnValue::Int(1))));
    assert!(matches!(v[1], Some(ColumnValue::Int(2))));
    assert!(matches!(&v[2], Some(ColumnValue::Text(t)) if t == "abc"));
}

#[test]
fn schema_statements_bind_nothing() {
    assert!(Statement::CreateKeyspace.is_schema());
    assert!(Statement::CreateTable.is_schema());
    assert!(!select_all_statement().is_schema());
    assert!(Statement::CreateKeyspace.values().is_empty());
    assert!(select_all_statement().values().is_empty());
}

#[test]
fn initialization_plan_without_seed() {
    let plan = initialization_plan(false);
    assert_eq!(plan.len(), 2);
    assert!(matches!(plan[0], Statement::CreateKeyspace));
    assert!(matches!(plan[1], Statement::CreateTable));
}

#[test]
fn initialization_plan_with_seed() {
    let plan = initialization_plan(true);
    assert_eq!(plan.len(), 3);
    assert!(matches!(plan[0], Statement::CreateKeyspace));
    assert!(matches!(plan[1], Statement::CreateTable));
    assert!(matches!(&plan[2], Statement::Insert { a: 3, b: 4, c } if c == "def"));
}

#[test]
fn execution_error_kind_follows_statement() {
    let e = err_execution(&Statement::CreateTable, QueryError::TimeoutError);
    assert_eq!(e.kind(), ErrorKind::Schema);
    let e = err_execution(&insert_statement(3, 4, "def".to_string()), QueryError::TimeoutError);
    assert_eq!(e.kind(), ErrorKind::Query);
}

#[test]
fn storage_defaults_endpoint() {
    let s = Storage::new(None);
    assert_eq!(s.uri(), "127.0.0.1:9042");
    assert_eq!(DEFAULT_URI, "127.0.0.1:9042");
    assert_eq!(POOL_SIZE_PER_HOST, 4);
    assert!(s.prepared(&INSERT_CQL.to_string()).is_none());
}

#[test]
fn storage_uses_configured_endpoint() {
    let s = Storage::new(Some("10.0.0.7:9042".to_string()));
    assert_eq!(s.uri(), "10.0.0.7:9042");
}

#[test]
fn get_rows_before_connect_fails_with_no_session() {
    let s = Storage::new(None);
    assert!(!s.is_connected());
    let e = s.session().err().unwrap();
    assert_eq!(e.kind(), ErrorKind::NoSession);
}

#[test]
fn result_with_data() {
    let r: ResultDto<i32> = ResultDto::data(7);
    assert_eq!(*r.payload(), Some(7));
    assert!(r.errors().is_empty());
}

#[test]
fn result_with_error() {
    let r: ResultDto<i32> = ResultDto::error(err_no_session());
    assert_eq!(*r.payload(), None);
    assert_eq!(r.errors().len(), 1);
    assert_eq!(r.errors()[0].details(), "session not initialized");
}

#[test]
fn default_result_is_empty() {
    let r: ResultDto<i32> = ResultDto::default();
    assert!(r.payload().is_none());
    assert!(r.errors().is_empty());
    let (d, e) = r.into_parts();
    assert!(d.is_none() && e.is_empty());
}

#[test]
fn row_dto_copies_fields() {
    let d = row_dto(RowEntity { a: 1, b: 2, c: "abc".to_string() });
    assert_eq!((d.a, d.b, d.c.as_str()), (1, 2, "abc"));
    let ds = row_dtos(vec![RowEntity { a: 3, b: 4, c: "def".to_string() }]);
    assert_eq!(ds.len(), 1);
    assert_eq!((ds[0].a, ds[0].b, ds[0].c.as_str()), (3, 4, "def"));
    let z = RowDto::default();
    assert_eq!((z.a, z.b, z.c.as_str()), (0, 0, ""));
}

#[test]
fn rows_response_on_success() {
    let rows = map_result_set(&vec![raw(1, 2, "abc")]);
    let r = rows_response(rows);
    assert!(r.errors().is_empty());
    let data = r.payload().as_ref().unwrap();
    assert_eq!(data.len(), 1);
    assert_eq!((data[0].a, data[0].b, data[0].c.as_str()), (1, 2, "abc"));
}

#[test]
fn rows_response_on_empty_table() {
    let r = rows_response(map_result_set(&vec![]));
    assert!(r.errors().is_empty());
    assert!(r.payload().as_ref().unwrap().is_empty());
}

#[test]
fn rows_response_on_failure() {
    let r = rows_response(Err(err_no_session()));
    assert!(r.payload().is_none());
    assert_eq!(r.errors().len(), 1);
    assert_eq!(r.errors()[0].details(), "session not initialized");
}

#[test]
fn query_without_rows_maps_to_empty() {
    assert!(map_query_rows(None).unwrap().is_empty());
    assert!(map_query_rows(Some(vec![])).unwrap().is_empty());
}

#[test]
fn query_rows_map_or_fail() {
    let ok = map_query_rows(Some(vec![raw(1, 2, "abc")])).unwrap();
    assert_eq!(ok.len(), 1);
    assert_eq!(triple(&ok[0]), (1, 2, "abc".to_string()));
    let bad = RawRow { columns: vec![Some(ColumnValue::Int(1))] };
    assert_eq!(map_query_rows(Some(vec![bad])).unwrap_err().kind(), ErrorKind::RowMapping);
}

#[test]
fn round_trip_row_through_envelope() {
    let stmt = insert_statement(1, 2, "abc".to_string());
    let stored = RawRow { columns: stmt.values() };
    let r = rows_response(map_query_rows(Some(vec![stored])));
    let data = r.payload().as_ref().unwrap();
    assert_eq!(data.len(), 1);
    assert_eq!((data[0].a, data[0].b, data[0].c.as_str()), (1, 2, "abc"));
}

#[test]
fn new_prepared_cache_is_empty() {
    let cache = PreparedCache::new();
    assert!(cache.get(&SELECT_ALL_CQL.to_string()).is_none());
    assert!(cache.get(&String::new()).is_none());
}

#[test]
fn timeout_error_kind_follows_statement() {
    let e = err_timeout(&Statement::CreateKeyspace);
    assert_eq!(e.kind(), ErrorKind::Schema);
    assert_eq!(e.message(), "statement timed out");
    assert_eq!(err_timeout(&select_all_statement()).kind(), ErrorKind::Query);
}
