use table_orders::database_connection::DatabaseConnector;
use table_orders::server_errors::ServerError;
use table_orders::server_functions;
use table_orders::store::Store;

struct TestDatabaseConnector {}

impl DatabaseConnector for TestDatabaseConnector {
    fn open(&self) -> Result<Store, rusqlite::Error> {
        Store::open_in_memory()
    }
}

#[test]
fn test_get_orders_database_error() {
    let connection = TestDatabaseConnector {};
    let result = server_functions::get_orders(&connection, 1);
    assert!(
        result.is_err(),
        "Database was not initialized, so this should fail"
    );
    assert!(
        matches!(result.err().unwrap(), ServerError::SqlError(_)),
        "Error is unexpected type"
    );
}

#[test]
fn setup_database_no_error() -> Result<(), String> {
    // setup
    let database_connector = TestDatabaseConnector {};

    // execution
    let result = server_functions::setup_database(&database_connector);

    // assertion
    assert!(
        result.is_ok(),
        "Error setting up database: {}",
        result.unwrap_err().describe()
    );
    Ok(())
}
