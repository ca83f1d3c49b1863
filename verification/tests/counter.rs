use visitor_counter::counter::{advanced, bumped, increment_counter, init_db, stored};
use visitor_counter::store::StoreError;

#[test]
fn counter_starts_at_zero_and_goes_up_by_one() {
    let counter = init_db(":memory:").unwrap();
    assert_eq!(increment_counter(&counter), Ok(1));
    assert_eq!(increment_counter(&counter), Ok(2));
    assert_eq!(increment_counter(&counter), Ok(3));
}

#[test]
fn counter_that_exists_is_kept() {
    let uri = "file:hit_counter_reopen?mode=memory&cache=shared";
    let first = init_db(uri).unwrap();
    assert_eq!(increment_counter(&first), Ok(1));
    assert_eq!(increment_counter(&first), Ok(2));
    let second = init_db(uri).unwrap();
    assert_eq!(increment_counter(&second), Ok(3));
    assert_eq!(increment_counter(&first), Ok(4));
    let side = rusqlite::Connection::open(uri).unwrap();
    let rows: i64 = side.query_row("SELECT COUNT(*) FROM counter", [], |row| row.get(0)).unwrap();
    assert_eq!(rows, 1);
    let value: i64 = side.query_row("SELECT value FROM counter", [], |row| row.get(0)).unwrap();
    assert_eq!(value, 4);
}

#[test]
fn counter_that_cannot_be_opened_is_an_init_error() {
    assert!(matches!(init_db("/no/such/directory/anywhere/counter.db"), Err(StoreError::Init(_))));
}

#[test]
fn counter_at_its_largest_value_stays() {
    let uri = "file:hit_counter_full?mode=memory&cache=shared";
    let counter = init_db(uri).unwrap();
    let side = rusqlite::Connection::open(uri).unwrap();
    side.execute("UPDATE counter SET value = ?", [i64::MAX - 1]).unwrap();
    assert_eq!(increment_counter(&counter), Ok(i64::MAX));
    assert_eq!(
        increment_counter(&counter),
        Err(StoreError::Write("integer overflow".to_string()))
    );
    let value: i64 = side.query_row("SELECT value FROM counter", [], |row| row.get(0)).unwrap();
    assert_eq!(value, i64::MAX);
}

#[test]
fn counter_without_its_row_is_a_read_error() {
    let uri = "file:hit_counter_no_row?mode=memory&cache=shared";
    let counter = init_db(uri).unwrap();
    let side = rusqlite::Connection::open(uri).unwrap();
    side.execute("DELETE FROM counter", []).unwrap();
    assert!(matches!(increment_counter(&counter), Err(StoreError::Read(_))));
}

#[test]
fn next_number_is_one_more() {
    assert_eq!(bumped(0), Some(1));
    assert_eq!(bumped(41), Some(42));
    assert_eq!(bumped(-1), Some(0));
    assert_eq!(bumped(i64::MIN), Some(i64::MIN + 1));
    assert_eq!(bumped(i64::MAX - 1), Some(i64::MAX));
    assert_eq!(bumped(i64::MAX), None);
}

#[test]
fn number_read_decides_what_is_written() {
    assert_eq!(advanced(Ok(9)), Ok(10));
    assert_eq!(advanced(Ok(i64::MAX)), Err(StoreError::Write("integer overflow".to_string())));
    assert_eq!(
        advanced(Err(rusqlite::Error::QueryReturnedNoRows)),
        Err(StoreError::Read(rusqlite::Error::QueryReturnedNoRows.to_string()))
    );
}

#[test]
fn number_written_is_the_number_returned() {
    assert_eq!(stored(5, Ok(1)), Ok(5));
    assert_eq!(stored(-3, Ok(0)), Ok(-3));
    assert_eq!(
        stored(5, Err(rusqlite::Error::InvalidQuery)),
        Err(StoreError::Write(rusqlite::Error::InvalidQuery.to_string()))
    );
}

#[test]
fn number_written_is_an_integer_in_the_store() {
    let uri = "file:hit_counter_typed?mode=memory&cache=shared";
    let counter = init_db(uri).unwrap();
    assert_eq!(increment_counter(&counter), Ok(1));
    let side = rusqlite::Connection::open(uri).unwrap();
    let kind: String =
        side.query_row("SELECT typeof(value) FROM counter", [], |row| row.get(0)).unwrap();
    assert_eq!(kind, "integer");
}
