use bb8_tiberius::{
    ErrorCategory, ManagedConnection, ManagerError, Probe, TiberiusConnectionManager, PROBE_QUERY,
    TIMEOUT_MESSAGE,
};

const TARGET: &str = "server=localhost:1433;user=auth;password=auth;";

type Validated = Result<ManagedConnection<u32>, (ManagerError<&'static str>, ManagedConnection<u32>)>;

#[test]
fn new_keeps_the_connection_string() {
    let manager = TiberiusConnectionManager::new(TARGET);
    assert_eq!(manager.connection_string(), TARGET);
}

#[test]
fn new_keeps_an_empty_connection_string() {
    let manager = TiberiusConnectionManager::new("");
    assert_eq!(manager.connection_string(), "");
}

#[test]
fn new_keeps_text_that_is_not_ascii() {
    let manager = TiberiusConnectionManager::new("server=b\u{fc}ro;user=\u{e9}t\u{e9};");
    assert_eq!(manager.connection_string(), "server=b\u{fc}ro;user=\u{e9}t\u{e9};");
}

#[test]
fn new_takes_an_owned_string_by_reference() {
    let owned = String::from(TARGET);
    let manager = TiberiusConnectionManager::new(&owned);
    assert_eq!(manager.connection_string(), owned);
}

#[test]
fn debug_string_shows_name_and_target() {
    let manager = TiberiusConnectionManager::new(TARGET);
    assert_eq!(
        manager.debug_string(),
        "TiberiusConnectionManager { connection_string: server=localhost:1433;user=auth;password=auth; }"
    );
}

#[test]
fn debug_string_of_an_empty_target() {
    let manager = TiberiusConnectionManager::new("");
    assert_eq!(manager.debug_string(), "TiberiusConnectionManager { connection_string:  }");
}

#[test]
fn probe_query_selects_one() {
    assert_eq!(PROBE_QUERY, "SELECT 1");
}

#[test]
fn timeout_message_names_the_manager() {
    assert_eq!(TIMEOUT_MESSAGE, "TiberiusConnectionManager timed out!");
}

#[test]
fn connect_wraps_an_established_session() {
    let manager = TiberiusConnectionManager::new(TARGET);
    let result: Result<ManagedConnection<u32>, ManagerError<&str>> = manager.connect(Ok(5));
    assert_eq!(result, Ok(ManagedConnection::Present(5)));
}

#[test]
fn connect_reports_the_drivers_error_as_it_came() {
    let manager = TiberiusConnectionManager::new(TARGET);
    let result: Result<ManagedConnection<u32>, ManagerError<&str>> =
        manager.connect(Err("connection refused"));
    assert_eq!(result, Err(ManagerError::Establishment("connection refused")));
}

#[test]
fn probe_takes_the_session_and_the_fixed_query() {
    let manager = TiberiusConnectionManager::new(TARGET);
    let probe = manager.probe(ManagedConnection::Present(5u32));
    assert_eq!(probe, Probe { session: 5, query: "SELECT 1" });
}

#[test]
fn is_valid_restores_the_connection_after_a_probe_that_ended() {
    let manager = TiberiusConnectionManager::new(TARGET);
    let result: Validated = manager.is_valid(Ok((vec![1i32], 5)));
    assert_eq!(result, Ok(ManagedConnection::Present(5)));
}

#[test]
fn is_valid_does_not_look_at_the_rows() {
    let manager = TiberiusConnectionManager::new(TARGET);
    let none: Validated = manager.is_valid(Ok((Vec::<i32>::new(), 5)));
    let many: Validated = manager.is_valid(Ok((vec![3i32, 2, 1], 5)));
    assert_eq!(none, Ok(ManagedConnection::Present(5)));
    assert_eq!(many, Ok(ManagedConnection::Present(5)));
}

#[test]
fn is_valid_poisons_the_connection_after_a_probe_that_failed() {
    let manager = TiberiusConnectionManager::new(TARGET);
    let result: Validated = manager.is_valid(Err::<(Vec<i32>, u32), _>("broken pipe"));
    assert_eq!(result, Err((ManagerError::Validation("broken pipe"), ManagedConnection::Absent)));
}

#[test]
fn has_broken_is_false_of_a_present_connection() {
    let manager = TiberiusConnectionManager::new(TARGET);
    let mut conn = ManagedConnection::Present(5u32);
    assert!(!manager.has_broken(&mut conn));
}

#[test]
fn has_broken_is_true_of_an_absent_connection() {
    let manager = TiberiusConnectionManager::new(TARGET);
    let mut conn: ManagedConnection<u32> = ManagedConnection::Absent;
    assert!(manager.has_broken(&mut conn));
}

#[test]
fn has_broken_leaves_the_connection_as_it_is() {
    let manager = TiberiusConnectionManager::new(TARGET);
    let mut present = ManagedConnection::Present(5u32);
    let mut absent: ManagedConnection<u32> = ManagedConnection::Absent;
    manager.has_broken(&mut present);
    manager.has_broken(&mut absent);
    assert_eq!(present, ManagedConnection::Present(5));
    assert_eq!(absent, ManagedConnection::Absent);
    assert!(manager.has_broken(&mut absent));
}

#[test]
fn timed_out_is_an_io_timeout_with_the_fixed_text() {
    let manager = TiberiusConnectionManager::new(TARGET);
    let error: ManagerError<&str> = manager.timed_out();
    assert_eq!(error, ManagerError::TimedOut { message: "TiberiusConnectionManager timed out!" });
    assert!(error.is_timeout());
    assert_eq!(error.classify(), ErrorCategory::Io);
    assert_eq!(error.into_source(), None);
}
