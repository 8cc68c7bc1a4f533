use banscreen::capture::RasterImage;
use banscreen::errors::ErrorReport;
use banscreen::fs::fake_file_system_adapter::FakeFileSystemAdapter;
use banscreen::results::ResultType;
use banscreen::take_screen_shot_usecase::TakeScreenShotUseCase;
use banscreen::window_system::fake_window_system_adapter::FakeWindowSystemAdapter;

fn assert_error<T>(result: Result<T, ErrorReport>, expected_msg: &str) {
    if let Err(e) = result {
        assert_eq!(e.message, expected_msg);
    } else {
        panic!("Expected an error, but got a success result");
    }
}

fn when(
    usecase: &mut TakeScreenShotUseCase<FakeWindowSystemAdapter, FakeFileSystemAdapter>,
) -> Result<ResultType, ErrorReport> {
    usecase.take_screenshot("window_name".to_string(), "output_path".to_string())
}

#[test]
fn take_screen_shot_usecase_it_should_report_finding_window_failures() {
    // Given
    let window_system_gateway = FakeWindowSystemAdapter::new();
    let fs_gateway = FakeFileSystemAdapter::new();
    let mut usecase = TakeScreenShotUseCase::new(window_system_gateway, fs_gateway);

    // When
    let result = when(&mut usecase);

    // Then
    assert_error(result, "Unable to list windows.");
}

#[test]
fn take_screen_shot_usecase_it_should_yield_an_error_if_the_target_window_cannot_be_found() {
    // Given
    let window_system_gateway = FakeWindowSystemAdapter::new().with_find_window_result(Ok(None));
    let fs_gateway = FakeFileSystemAdapter::new();
    let mut usecase = TakeScreenShotUseCase::new(window_system_gateway, fs_gateway);

    // When
    let result = when(&mut usecase);

    // Then
    assert_error(result, "Unable to find the window with title \"window_name\"");
}

#[test]
fn take_screen_shot_usecase_it_should_report_screenshot_taking_failures() {
    // Given
    let window_system_gateway =
        FakeWindowSystemAdapter::new().with_find_window_result(Ok(Some(1)));
    let fs_gateway = FakeFileSystemAdapter::new();
    let mut usecase = TakeScreenShotUseCase::new(window_system_gateway, fs_gateway);

    // When
    let result = when(&mut usecase);

    // Then
    assert_error(result, "Unable to take screenshot.");
}

#[test]
fn take_screen_shot_usecase_it_should_report_image_saving_failures() {
    // Given
    let window_system_gateway = FakeWindowSystemAdapter::new()
        .with_find_window_result(Ok(Some(1)))
        .with_take_screen_shot_result(Ok(RasterImage::blank(1, 1)));
    let fs_gateway = FakeFileSystemAdapter::new();
    let mut usecase = TakeScreenShotUseCase::new(window_system_gateway, fs_gateway);

    // When
    let result = when(&mut usecase);

    // Then
    assert_error(result, "Unable to save file");
}

#[test]
fn take_screen_shot_usecase_it_should_work() {
    // Given
    let window_system_gateway = FakeWindowSystemAdapter::new()
        .with_find_window_result(Ok(Some(1)))
        .with_take_screen_shot_result(Ok(RasterImage::blank(1, 1)));
    let fs_gateway = FakeFileSystemAdapter::new().with_result(Ok(()));
    let mut usecase = TakeScreenShotUseCase::new(window_system_gateway, fs_gateway);

    // When
    let result = when(&mut usecase);

    // Then
    assert!(result.is_ok());
}

#[test]
fn take_screen_shot_usecase_test_it_should_report_finding_window_failures() {
    // Given
    let window_system_gateway = FakeWindowSystemAdapter::new();
    let fs_gateway = FakeFileSystemAdapter::new();
    let mut usecase = TakeScreenShotUseCase::new(window_system_gateway, fs_gateway);

    // When
    let result = when(&mut usecase);

    // Then
    assert_error(result, "Unable to list windows.");
}

#[test]
fn take_screen_shot_usecase_test_it_should_yield_an_error_if_the_target_window_cannot_be_found() {
    // Given
    let window_system_gateway = FakeWindowSystemAdapter::new().with_find_window_result(Ok(None));
    let fs_gateway = FakeFileSystemAdapter::new();
    let mut usecase = TakeScreenShotUseCase::new(window_system_gateway, fs_gateway);

    // When
    let result = when(&mut usecase);

    // Then
    assert_error(result, "Unable to find the window with title \"window_name\"");
}

#[test]
fn take_screen_shot_usecase_test_it_should_report_screenshot_taking_failures() {
    // Given
    let window_system_gateway =
        FakeWindowSystemAdapter::new().with_find_window_result(Ok(Some(1)));
    let fs_gateway = FakeFileSystemAdapter::new();
    let mut usecase = TakeScreenShotUseCase::new(window_system_gateway, fs_gateway);

    // When
    let result = when(&mut usecase);

    // Then
    assert_error(result, "Unable to take screenshot.");
}

#[test]
fn take_screen_shot_usecase_test_it_should_report_image_saving_failures() {
    // Given
    let window_system_gateway = FakeWindowSystemAdapter::new()
        .with_find_window_result(Ok(Some(1)))
        .with_take_screen_shot_result(Ok(RasterImage::blank(1, 1)));
    let fs_gateway = FakeFileSystemAdapter::new();
    let mut usecase = TakeScreenShotUseCase::new(window_system_gateway, fs_gateway);

    // When
    let result = when(&mut usecase);

    // Then
    assert_error(result, "Unable to save file");
}

#[test]
fn take_screen_shot_usecase_test_it_should_work() {
    // Given
    let window_system_gateway = FakeWindowSystemAdapter::new()
        .with_find_window_result(Ok(Some(1)))
        .with_take_screen_shot_result(Ok(RasterImage::blank(1, 1)));
    let fs_gateway = FakeFileSystemAdapter::new().with_result(Ok(()));
    let mut usecase = TakeScreenShotUseCase::new(window_system_gateway, fs_gateway);

    // When
    let result = when(&mut usecase);

    // Then
    assert!(result.is_ok());
}
