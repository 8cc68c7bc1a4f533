use banscreen::errors::ErrorReport;
use banscreen::list_windows_usecase::ListWindowsUseCase;
use banscreen::results::ResultType;
use banscreen::window_system::fake_window_system_adapter::FakeWindowSystemAdapter;

fn assert_error<T>(result: Result<T, ErrorReport>, expected_msg: &str) {
    if let Err(e) = result {
        assert_eq!(e.message, expected_msg);
    } else {
        panic!("Expected an error, but got a success result");
    }
}

fn when(usecase: &mut ListWindowsUseCase<FakeWindowSystemAdapter>) -> Result<ResultType, ErrorReport> {
    usecase.execute()
}

#[test]
fn list_windows_usecase_it_should_report_listing_window_failures() {
    // Given
    let window_system_gateway = FakeWindowSystemAdapter::new();
    let mut usecase = ListWindowsUseCase::new(window_system_gateway);

    // When
    let result = when(&mut usecase);

    // Then
    assert_error(result, "Unable to list windows.");
}

#[test]
fn list_windows_usecase_it_should_work() {
    // Given
    let window_system_gateway = FakeWindowSystemAdapter::new().with_list_windows_result(Ok(vec![
        "window1".to_string(),
        "window2".to_string(),
    ]));
    let mut usecase = ListWindowsUseCase::new(window_system_gateway);

    // When
    let result = when(&mut usecase);

    // Then
    match result.unwrap() {
        ResultType::ListWindowResult(windows) => {
            assert_eq!(windows, vec!["window1".to_string(), "window2".to_string()]);
        }
        _ => panic!("Expected ListWindowResult"),
    }
}

#[test]
fn list_windows_usecase_test_it_should_report_listing_window_failures() {
    // Given
    let window_system_gateway = FakeWindowSystemAdapter::new();
    let mut usecase = ListWindowsUseCase::new(window_system_gateway);

    // When
    let result = when(&mut usecase);

    // Then
    assert_error(result, "Unable to list windows.");
}

#[test]
fn list_windows_usecase_test_it_should_work() {
    // Given
    let window_system_gateway = FakeWindowSystemAdapter::new().with_list_windows_result(Ok(vec![
        "window1".to_string(),
        "window2".to_string(),
    ]));
    let mut usecase = ListWindowsUseCase::new(window_system_gateway);

    // When
    let result = when(&mut usecase);

    // Then
    match result.unwrap() {
        ResultType::ListWindowResult(windows) => {
            assert_eq!(windows, vec!["window1".to_string(), "window2".to_string()]);
        }
        _ => panic!("Expected ListWindowResult"),
    }
}
