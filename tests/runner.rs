use dirls::cli::Options;
use dirls::error::RunError;
use dirls::runner::{Action, Event, Runner};

fn opts(only_info: bool, append_info: bool) -> Options {
    Options { show_dots: false, only_info, append_info }
}

fn done(error: Option<&str>) -> Event {
    Event::Done { error: error.map(|s| s.to_string()) }
}

#[test]
fn single_missing_target_fails_with_not_found() {
    let mut r = Runner::new(opts(false, false), 1);
    let s = r.step(Event::Start);
    assert!(matches!(s.action, Action::Probe { index: 0, header: false }));
    let s = r.step(Event::Probed { exists: false, is_dir: false });
    assert!(s.warning.is_none());
    match s.action {
        Action::Finish { result: Err(e) } => {
            assert!(matches!(e, RunError::NotFound));
            assert_eq!(e.message(), "Item doesn't exist!");
        }
        _ => panic!("expected a failure"),
    }
}

#[test]
fn missing_then_file_succeeds_with_one_warning() {
    let mut r = Runner::new(opts(false, false), 2);
    let mut warnings = Vec::new();
    let s = r.step(Event::Start);
    assert!(matches!(s.action, Action::Probe { index: 0, header: true }));
    let s = r.step(Event::Probed { exists: false, is_dir: false });
    warnings.extend(s.warning);
    assert!(matches!(s.action, Action::Probe { index: 1, header: true }));
    let s = r.step(Event::Probed { exists: true, is_dir: false });
    warnings.extend(s.warning);
    assert!(matches!(s.action, Action::ShowInfo { index: 1, header: false, indent: true }));
    let s = r.step(done(None));
    warnings.extend(s.warning);
    assert!(matches!(s.action, Action::Finish { result: Ok(true) }));
    assert_eq!(warnings.len(), 1);
    assert!(matches!(warnings[0], RunError::NotFound));
}

#[test]
fn single_file_is_described() {
    let mut r = Runner::new(opts(false, false), 1);
    r.step(Event::Start);
    let s = r.step(Event::Probed { exists: true, is_dir: false });
    assert!(matches!(s.action, Action::ShowInfo { index: 0, header: true, indent: false }));
    let s = r.step(done(Some("denied")));
    match s.action {
        Action::Finish { result: Err(e) } => {
            assert_eq!(e.message(), "Failed to get metadata: denied")
        }
        _ => panic!("expected a failure"),
    }
}

#[test]
fn single_dir_is_listed_or_described() {
    let mut r = Runner::new(opts(false, false), 1);
    r.step(Event::Start);
    let s = r.step(Event::Probed { exists: true, is_dir: true });
    assert!(matches!(s.action, Action::ListDir { index: 0, indent: false }));
    let s = r.step(done(Some("gone")));
    match s.action {
        Action::Finish { result: Err(e) } => assert_eq!(
            e.message(),
            "Problem happened while attempting to read directory: gone"
        ),
        _ => panic!("expected a failure"),
    }

    let mut r = Runner::new(opts(true, false), 1);
    r.step(Event::Start);
    let s = r.step(Event::Probed { exists: true, is_dir: true });
    assert!(matches!(s.action, Action::ShowInfo { index: 0, header: true, indent: false }));
    assert!(matches!(r.step(done(None)).action, Action::Finish { result: Ok(true) }));
}

#[test]
fn append_info_failure_is_only_a_warning() {
    let mut r = Runner::new(opts(false, true), 1);
    r.step(Event::Start);
    let s = r.step(Event::Probed { exists: true, is_dir: true });
    assert!(matches!(s.action, Action::ShowInfo { index: 0, header: false, indent: false }));
    let s = r.step(done(Some("denied")));
    assert!(matches!(s.warning, Some(RunError::Metadata { .. })));
    assert!(matches!(s.action, Action::ListDir { index: 0, indent: false }));
    let s = r.step(done(None));
    assert!(matches!(s.action, Action::Finish { result: Ok(true) }));
}

#[test]
fn batch_with_all_failures_fails_without_error() {
    let mut r = Runner::new(opts(false, false), 2);
    r.step(Event::Start);
    let s = r.step(Event::Probed { exists: true, is_dir: true });
    assert!(matches!(s.action, Action::ListDir { index: 0, indent: true }));
    let s = r.step(done(Some("gone")));
    assert!(matches!(s.warning, Some(RunError::ReadDir { .. })));
    assert!(matches!(s.action, Action::Probe { index: 1, header: true }));
    let s = r.step(Event::Probed { exists: false, is_dir: false });
    assert!(matches!(s.warning, Some(RunError::NotFound)));
    assert!(matches!(s.action, Action::Finish { result: Ok(false) }));
}

#[test]
fn events_out_of_turn_are_not_accepted() {
    let mut r = Runner::new(opts(false, false), 1);
    assert!(r.accepts(&Event::Start));
    assert!(!r.accepts(&done(None)));
    r.step(Event::Start);
    assert!(r.accepts(&Event::Probed { exists: true, is_dir: true }));
    assert!(!r.accepts(&Event::Start));
}
