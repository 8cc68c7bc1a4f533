use banscreen::errors::ErrorReport;
use banscreen::presenter::Presenter;
use banscreen::presenter_adapter::plain_text_presenter_adapter::PlainTextPresenterAdapter;
use banscreen::presenter_adapter::plain_text_presenter_adapter::render_result;
use banscreen::results::ResultType;

#[test]
fn a_window_list_renders_as_a_heading_and_one_line_per_title() {
    let result = ResultType::ListWindowResult(vec!["one".to_string(), "two".to_string()]);
    assert_eq!(render_result(&result), "Windows:\none\ntwo");
}

#[test]
fn an_empty_window_list_renders_as_the_bare_heading() {
    let result = ResultType::ListWindowResult(vec![]);
    assert_eq!(render_result(&result), "Windows:");
}

#[test]
fn a_capture_renders_as_a_confirmation() {
    let result = ResultType::TakeScreenShotResult(());
    assert_eq!(render_result(&result), "Screenshot taken");
}

#[test]
fn presenting_a_result_succeeds() {
    let presenter = Presenter::new(PlainTextPresenterAdapter::new());
    let response = Ok(ResultType::ListWindowResult(vec!["w".to_string()]));
    assert!(presenter.present(&response).is_ok());
}

#[test]
fn presenting_an_error_succeeds() {
    let presenter = Presenter::new(PlainTextPresenterAdapter::new());
    let response = Err(ErrorReport::from_text("something broke"));
    assert!(presenter.present(&response).is_ok());
}
