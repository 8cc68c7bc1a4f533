use banscreen::gateways::ListWindowsWindowSystemGateway;
use banscreen::gateways::ScreenShotWindowSystemGateway;
use banscreen::window_system::fake_window_session::FakeWindow;
use banscreen::window_system::fake_window_session::FakeWindowSession;
use banscreen::window_system::fake_window_session::TitleReply;
use banscreen::window_system::session_window_system_adapter::SessionWindowSystemAdapter;

fn window(handle: u64, wm_name: TitleReply, children: Vec<FakeWindow>) -> FakeWindow {
    FakeWindow {
        handle,
        wm_name,
        fetch_name: None,
        query_ok: true,
        geom_ok: true,
        image_ok: true,
        width: 0,
        height: 0,
        red_mask: 0xFF0000,
        green_mask: 0x00FF00,
        blue_mask: 0x0000FF,
        pixels: vec![],
        children,
    }
}

fn titled(handle: u64, title: &str, children: Vec<FakeWindow>) -> FakeWindow {
    window(handle, TitleReply::Present(title.to_string()), children)
}

fn untitled(handle: u64, children: Vec<FakeWindow>) -> FakeWindow {
    window(handle, TitleReply::Absent, children)
}

/// The hierarchy of scenarios A to C: an untitled root over w1 "alpha",
/// w2 "beta", and an untitled w3.
fn alpha_beta_hierarchy() -> FakeWindow {
    untitled(
        1,
        vec![titled(2, "alpha", vec![]), titled(3, "beta", vec![]), untitled(4, vec![])],
    )
}

fn adapter_over(root: FakeWindow) -> SessionWindowSystemAdapter<FakeWindowSession> {
    let session = FakeWindowSession::new(root).expect("the hierarchy should be accepted");
    SessionWindowSystemAdapter::new(session)
}

#[test]
fn list_yields_titled_windows_in_preorder() {
    let mut adapter = adapter_over(alpha_beta_hierarchy());
    let windows = adapter.list_windows().expect("listing should succeed");
    assert_eq!(windows, vec!["alpha".to_string(), "beta".to_string()]);
}

#[test]
fn find_yields_the_first_matching_window() {
    let mut adapter = adapter_over(alpha_beta_hierarchy());
    let found = adapter.find_window(&"beta".to_string()).expect("finding should succeed");
    assert_eq!(found, Some(3));
}

#[test]
fn find_with_empty_title_never_matches_untitled_windows() {
    let mut adapter = adapter_over(alpha_beta_hierarchy());
    let found = adapter.find_window(&"".to_string()).expect("finding should succeed");
    assert_eq!(found, None);
}

#[test]
fn failing_children_query_on_the_root_fails_list_and_find() {
    let mut broken = alpha_beta_hierarchy();
    broken.query_ok = false;
    let mut adapter = adapter_over(broken);
    let list_err = adapter.list_windows().expect_err("listing should fail");
    assert_eq!(list_err.message, "Unable to query the root window tree for window 1");
    let mut adapter = adapter_over({
        let mut b = alpha_beta_hierarchy();
        b.query_ok = false;
        b
    });
    let find_err = adapter
        .find_window(&"beta".to_string())
        .expect_err("finding should fail");
    assert_eq!(find_err.message, "Unable to query the root window tree for window 1");
}

#[test]
fn capture_decodes_a_uniform_two_by_one_window() {
    let mut target = titled(7, "target", vec![]);
    target.width = 2;
    target.height = 1;
    target.pixels = vec![0x0000FF, 0x0000FF];
    let root = untitled(1, vec![target]);
    let mut adapter = adapter_over(root);
    let found = adapter.find_window(&"target".to_string()).expect("finding should succeed");
    assert_eq!(found, Some(7));
    let img = adapter.take_screen_shot(7).expect("capture should succeed");
    assert_eq!(img.width(), 2);
    assert_eq!(img.height(), 1);
    assert_eq!(img.pixel_at(0, 0), (0, 0, 255));
    assert_eq!(img.pixel_at(1, 0), (0, 0, 255));
}

#[test]
fn find_stops_at_the_first_match_before_a_later_failure() {
    // The match comes first in pre-order; the failing subtree after it is
    // never queried, so the search succeeds where the enumeration fails.
    let mut broken = untitled(3, vec![]);
    broken.query_ok = false;
    let root = untitled(1, vec![titled(2, "target", vec![]), broken]);
    let mut adapter = adapter_over(root);
    let found = adapter.find_window(&"target".to_string()).expect("finding should succeed");
    assert_eq!(found, Some(2));
    let list_err = adapter.list_windows().expect_err("listing should fail");
    assert_eq!(list_err.message, "Unable to query the root window tree for window 3");
}

#[test]
fn list_is_idempotent_against_an_unchanged_hierarchy() {
    let mut adapter = adapter_over(alpha_beta_hierarchy());
    let first = adapter.list_windows().expect("listing should succeed");
    let second = adapter.list_windows().expect("listing should succeed");
    assert_eq!(first, second);
}

#[test]
fn find_tests_a_window_before_its_children() {
    // The root itself carries the searched title; a deeper window does too.
    let root = titled(1, "name", vec![titled(2, "name", vec![])]);
    let mut adapter = adapter_over(root);
    let found = adapter.find_window(&"name".to_string()).expect("finding should succeed");
    assert_eq!(found, Some(1));
}

#[test]
fn legacy_lookup_is_used_where_the_primary_yields_nothing() {
    let mut by_fetch = window(2, TitleReply::Absent, vec![]);
    by_fetch.fetch_name = Some("legacy".to_string());
    let mut by_fetch_after_failure = window(3, TitleReply::Failed, vec![]);
    by_fetch_after_failure.fetch_name = Some("fallback".to_string());
    let root = untitled(1, vec![by_fetch, by_fetch_after_failure]);
    let mut adapter = adapter_over(root);
    let windows = adapter.list_windows().expect("listing should succeed");
    assert_eq!(windows, vec!["legacy".to_string(), "fallback".to_string()]);
}

#[test]
fn primary_lookup_wins_over_the_legacy_name() {
    let mut both = window(2, TitleReply::Present("modern".to_string()), vec![]);
    both.fetch_name = Some("legacy".to_string());
    let root = untitled(1, vec![both]);
    let mut adapter = adapter_over(root);
    let windows = adapter.list_windows().expect("listing should succeed");
    assert_eq!(windows, vec!["modern".to_string()]);
}

#[test]
fn duplicate_handles_are_rejected() {
    let root = untitled(1, vec![titled(2, "a", vec![]), titled(2, "b", vec![])]);
    assert!(FakeWindowSession::new(root).is_none());
}

#[test]
fn geometry_failure_names_the_window() {
    let mut target = titled(10, "target", vec![]);
    target.geom_ok = false;
    let root = untitled(1, vec![target]);
    let mut adapter = adapter_over(root);
    let err = adapter.take_screen_shot(10).expect_err("capture should fail");
    assert_eq!(err.message, "Unable to get the window attributes of 0xa");
}

#[test]
fn pixel_read_failure_names_the_window() {
    let mut target = titled(10, "target", vec![]);
    target.image_ok = false;
    let root = untitled(1, vec![target]);
    let mut adapter = adapter_over(root);
    let err = adapter.take_screen_shot(10).expect_err("capture should fail");
    assert_eq!(err.message, "Unable to get the pixel data from window 0xa");
}

#[test]
fn test_should_list_multiple_windows() {
    let root = untitled(
        1,
        vec![
            titled(2, "window1", vec![]),
            titled(3, "bbbb", vec![]),
            titled(4, "window3", vec![]),
        ],
    );
    let mut adapter = adapter_over(root);
    let windows = adapter.list_windows().expect("Failed to list windows");
    assert_eq!(
        windows,
        vec!["window1".to_string(), "bbbb".to_string(), "window3".to_string()]
    );
}

#[test]
fn test_should_return_none_if_window_cannot_be_found() {
    let root = untitled(
        1,
        vec![
            titled(2, "window1", vec![]),
            titled(3, "bbbb", vec![]),
            titled(4, "window3", vec![]),
        ],
    );
    let mut adapter = adapter_over(root);
    let found = adapter
        .find_window(&"a window that does not exist".to_string())
        .expect("finding should succeed");
    assert_eq!(found, None);
}
