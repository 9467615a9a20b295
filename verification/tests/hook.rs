use app_bootstrap::hook::setup;

#[derive(Clone, Debug, PartialEq)]
struct FakeApp {
    windows: Vec<String>,
    counter: u64,
}

#[test]
fn setup_reports_success() {
    let mut app = FakeApp {
        windows: vec![String::from("main")],
        counter: 41,
    };
    assert!(setup(&mut app).is_ok());
}

#[test]
fn setup_leaves_the_application_unchanged() {
    let mut app = FakeApp {
        windows: vec![String::from("main"), String::from("settings")],
        counter: 41,
    };
    let before = app.clone();
    let _ = setup(&mut app);
    assert_eq!(app, before);
}

#[test]
fn setup_succeeds_on_an_empty_application() {
    let mut app = FakeApp {
        windows: Vec::new(),
        counter: 0,
    };
    assert_eq!(setup(&mut app), Ok(()));
    assert_eq!(
        app,
        FakeApp {
            windows: Vec::new(),
            counter: 0
        }
    );
}

#[test]
fn setup_can_be_invoked_again_with_the_same_result() {
    let mut state: u64 = 7;
    assert_eq!(setup(&mut state), Ok(()));
    assert_eq!(setup(&mut state), Ok(()));
    assert_eq!(state, 7);
}

#[test]
fn setup_works_on_any_kind_of_state() {
    let mut unit = ();
    assert!(setup(&mut unit).is_ok());
    let mut text = String::from("state");
    assert!(setup(&mut text).is_ok());
    assert_eq!(text, "state");
}
