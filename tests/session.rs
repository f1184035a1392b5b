use webview_session::error::InitError;
use webview_session::geometry::Rect;
use webview_session::session::{Command, Session, Stage, Step};

fn wide(s: &str) -> Vec<u16> {
    s.encode_utf16().collect()
}

/// Drives a session through a successful bootstrap and view configuration.
fn configured(client: Rect) -> (Session, Vec<Command>) {
    let mut s = Session::new();
    assert_eq!(s.begin_environment(Some(wide("en-US"))), Ok(wide("en-US")));
    assert_eq!(s.environment_settled(Ok::<&str, InitError>("env")), Ok("env"));
    s.begin_controller();
    assert_eq!(s.controller_settled(Ok::<&str, InitError>("ctrl")), Ok("ctrl"));
    let commands = s.configure_view(true, client).unwrap();
    (s, commands)
}

#[test]
fn environment_completes_before_controller_is_submitted() {
    let (mut s, _) = configured(Rect::new(0, 0, 640, 480));
    s.attach_handlers();
    s.show();
    let steps = s.steps();
    let created = steps.iter().position(|x| *x == Step::EnvironmentCreated).unwrap();
    let submitted = steps.iter().position(|x| *x == Step::SubmitController).unwrap();
    assert!(created < submitted);
    assert_eq!(steps.iter().filter(|x| **x == Step::SubmitController).count(), 1);
}

#[test]
fn resize_sets_bounds_from_current_client_area() {
    let (mut s, _) = configured(Rect::new(0, 0, 800, 600));
    s.attach_handlers();
    s.show();
    assert_eq!(s.on_resize(Rect::new(0, 0, 1024, 768)), Some(Rect::new(0, 0, 1024, 768)));
    assert_eq!(s.bounds(), Some(Rect::new(0, 0, 1024, 768)));
    assert_eq!(s.on_resize(Rect::new(3, 4, 403, 304)), Some(Rect::new(0, 0, 400, 300)));
    assert_eq!(s.bounds(), Some(Rect::new(0, 0, 400, 300)));
}

#[test]
fn resize_before_handlers_are_attached_does_nothing() {
    let (mut s, _) = configured(Rect::new(0, 0, 800, 600));
    assert_eq!(s.on_resize(Rect::new(0, 0, 100, 100)), None);
    assert_eq!(s.bounds(), Some(Rect::new(0, 0, 800, 600)));
}

#[test]
fn second_destroy_does_not_release_again() {
    let (mut s, _) = configured(Rect::new(0, 0, 800, 600));
    s.attach_handlers();
    s.show();
    assert_eq!(s.acquire_count(), 1);
    assert!(s.on_destroy());
    assert_eq!(s.release_count(), 1);
    assert!(!s.on_destroy());
    assert_eq!(s.release_count(), 1);
    assert_eq!(s.acquire_count(), 1);
    assert_eq!(s.stage(), Stage::Destroyed);
}

#[test]
fn no_bounds_update_after_destroy() {
    let (mut s, _) = configured(Rect::new(0, 0, 800, 600));
    s.attach_handlers();
    s.show();
    s.on_destroy();
    assert_eq!(s.on_resize(Rect::new(0, 0, 10, 10)), None);
    assert_eq!(s.bounds(), Some(Rect::new(0, 0, 800, 600)));
}

#[test]
fn destroy_before_attach_releases_nothing() {
    let mut s = Session::new();
    assert!(!s.on_destroy());
    assert_eq!(s.acquire_count(), 0);
    assert_eq!(s.release_count(), 0);
    assert_eq!(s.stage(), Stage::Destroyed);
}

#[test]
fn locale_failure_submits_nothing() {
    let mut s = Session::new();
    assert_eq!(s.begin_environment(None), Err(InitError::Configuration));
    assert_eq!(s.stage(), Stage::Failed);
    assert!(s.steps().is_empty());
}

#[test]
fn failed_environment_fails_session() {
    let mut s = Session::new();
    s.begin_environment(Some(wide("fr"))).unwrap();
    let r = s.environment_settled(Err::<u8, InitError>(InitError::Subsystem(-7)));
    assert_eq!(r, Err(InitError::Subsystem(-7)));
    assert_eq!(s.stage(), Stage::Failed);
    assert_eq!(s.steps(), vec![Step::SubmitEnvironment]);
}

#[test]
fn failed_controller_fails_session() {
    let mut s = Session::new();
    s.begin_environment(Some(wide("fr"))).unwrap();
    s.environment_settled(Ok::<u8, InitError>(1)).unwrap();
    s.begin_controller();
    let r = s.controller_settled(Err::<u8, InitError>(InitError::Communication));
    assert_eq!(r, Err(InitError::Communication));
    assert_eq!(s.stage(), Stage::Failed);
}

#[test]
fn controller_without_view_is_unavailable() {
    let mut s = Session::new();
    s.begin_environment(Some(wide("fr"))).unwrap();
    s.environment_settled(Ok::<u8, InitError>(1)).unwrap();
    s.begin_controller();
    s.controller_settled(Ok::<u8, InitError>(2)).unwrap();
    assert_eq!(s.configure_view(false, Rect::new(0, 0, 1, 1)), Err(InitError::ViewUnavailable));
    assert_eq!(s.stage(), Stage::Failed);
    assert_eq!(s.bounds(), None);
}

#[test]
fn failure_during_configuration_is_final() {
    let (mut s, _) = configured(Rect::new(0, 0, 800, 600));
    assert_eq!(s.fail(InitError::Subsystem(-1)), InitError::Subsystem(-1));
    assert_eq!(s.stage(), Stage::Failed);
}

#[test]
fn end_to_end_window_800_by_600() {
    let (mut s, commands) = configured(Rect::new(0, 0, 800, 600));
    assert_eq!(
        commands,
        vec![
            Command::EnableDevTools,
            Command::SetBounds(Rect::new(0, 0, 800, 600)),
            Command::LoadContent,
        ]
    );
    assert_eq!(s.stage(), Stage::ViewConfigured);
    s.attach_handlers();
    assert_eq!(s.show(), vec![Command::Show, Command::Focus]);
    assert_eq!(s.stage(), Stage::Visible);
    assert_eq!(s.bounds(), Some(Rect::new(0, 0, 800, 600)));
    let steps = s.steps();
    assert_eq!(
        steps,
        vec![
            Step::SubmitEnvironment,
            Step::EnvironmentCreated,
            Step::SubmitController,
            Step::ControllerCreated,
            Step::EnableDevTools,
            Step::SetBounds,
            Step::LoadContent,
            Step::AttachHandlers,
            Step::Show,
            Step::Focus,
        ]
    );
    assert_eq!(steps.iter().filter(|x| **x == Step::Focus).count(), 1);
    assert_eq!(steps.iter().filter(|x| **x == Step::LoadContent).count(), 1);
}
