use product_service::host::RulesEngineState;
use product_service::interface::Error;
use product_service::resource_table::ResourceKind;
use product_service::resource_table::ResourceTable;
use product_service::resource_table::TableError;

#[test]
fn test_allocate_issues_distinct_handles() {
    let mut table = ResourceTable::new();
    let first = table.allocate(ResourceKind::Logger).unwrap();
    let second = table.allocate(ResourceKind::Logger).unwrap();
    assert_ne!(first, second);
    assert!(table.get(first, ResourceKind::Logger).is_ok());
    assert!(table.get(second, ResourceKind::Logger).is_ok());
}

#[test]
fn test_get_unknown_handle_is_not_found() {
    let table = ResourceTable::new();
    assert_eq!(table.get(7, ResourceKind::Logger), Err(TableError::NotFound));
}

#[test]
fn test_release_makes_handle_dead() {
    let mut table = ResourceTable::new();
    let handle = table.allocate(ResourceKind::Logger).unwrap();
    assert_eq!(table.release(handle), Ok(()));
    assert_eq!(table.get(handle, ResourceKind::Logger), Err(TableError::NotFound));
    assert_eq!(table.release(handle), Err(TableError::NotFound));
}

#[test]
fn test_released_handle_is_never_reissued() {
    let mut table = ResourceTable::new();
    let first = table.allocate(ResourceKind::Logger).unwrap();
    table.release(first).unwrap();
    let second = table.allocate(ResourceKind::Logger).unwrap();
    assert_ne!(first, second);
}

#[test]
fn test_log_through_live_handle_reaches_sink() {
    let mut state = RulesEngineState::new();
    let handle = state.get_logger().unwrap();
    state.log(handle, "first message").unwrap();
    state.log(handle, "second message").unwrap();
    assert_eq!(state.messages().len(), 2);
    assert_eq!(state.messages()[0], "first message");
    assert_eq!(state.messages()[1], "second message");
}

#[test]
fn test_log_after_release_fails() {
    let mut state = RulesEngineState::new();
    let handle = state.get_logger().unwrap();
    state.drop_logger(handle).unwrap();
    match state.log(handle, "into the void") {
        Err(Error::EngineInternalError(_)) => (),
        _ => panic!("a released handle must be rejected"),
    }
    assert!(state.messages().is_empty());
}

#[test]
fn test_log_through_foreign_handle_fails() {
    let mut state = RulesEngineState::new();
    match state.log(41, "never acquired") {
        Err(Error::EngineInternalError(_)) => (),
        _ => panic!("a forged handle must be rejected"),
    }
    assert!(state.messages().is_empty());
}

#[test]
fn test_release_of_unknown_handle_fails() {
    let mut state = RulesEngineState::new();
    match state.drop_logger(5) {
        Err(Error::EngineInternalError(_)) => (),
        _ => panic!("an unknown handle must be rejected"),
    }
}

#[test]
fn test_fresh_states_are_independent() {
    let mut first = RulesEngineState::new();
    let mut second = RulesEngineState::new();
    let handle = first.get_logger().unwrap();
    // The handle was issued by the first state's table; the second state's
    // table has never seen it.
    match second.log(handle, "crossed the streams") {
        Err(Error::EngineInternalError(_)) => (),
        _ => panic!("a handle from another invocation must be rejected"),
    }
    first.log(handle, "own state").unwrap();
    assert_eq!(first.messages().len(), 1);
    assert!(second.messages().is_empty());
}
