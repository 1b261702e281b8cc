use obito::lifecycle::AppAction;
use obito::lifecycle::AppEvent;
use obito::lifecycle::ObitoApp;
use obito::surface::frame_outcome;
use obito::surface::SurfaceStatus;

fn running_app() -> ObitoApp {
    let mut app = ObitoApp::new("Obito".to_string(), 1280, 720);
    app.step(AppEvent::Resumed);
    app.step(AppEvent::WindowCreated);
    app.step(AppEvent::GraphicsReady);
    app
}

#[test]
fn fresh_app_has_nothing() {
    let app = ObitoApp::new("Obito".to_string(), 1280, 720);
    assert!(!app.has_window());
    assert!(!app.has_graphics());
    assert_eq!(app.title(), "Obito");
}

#[test]
fn resume_asks_for_the_window() {
    let mut app = ObitoApp::new("Demo".to_string(), 800, 600);
    match app.step(AppEvent::Resumed) {
        AppAction::CreateWindow { title, width, height } => {
            assert_eq!(title, "Demo");
            assert_eq!((width, height), (800, 600));
        }
        other => panic!("unexpected {:?}", other),
    }
    assert!(!app.has_window());
}

#[test]
fn created_window_leads_to_graphics() {
    let mut app = ObitoApp::new("Demo".to_string(), 800, 600);
    app.step(AppEvent::Resumed);
    assert!(matches!(app.step(AppEvent::WindowCreated), AppAction::InitGraphics));
    assert!(app.has_window());
    assert!(!app.has_graphics());
    assert!(matches!(app.step(AppEvent::GraphicsReady), AppAction::Nothing));
    assert!(app.has_graphics());
}

#[test]
fn window_is_created_at_most_once() {
    let mut app = running_app();
    assert!(matches!(app.step(AppEvent::Resumed), AppAction::Nothing));
}

#[test]
fn failed_window_is_reported() {
    let mut app = ObitoApp::new("Demo".to_string(), 800, 600);
    app.step(AppEvent::Resumed);
    assert!(matches!(app.step(AppEvent::WindowCreationFailed), AppAction::ReportWindowError));
    assert!(!app.has_window());
    assert!(matches!(app.step(AppEvent::Resumed), AppAction::CreateWindow { .. }));
}

#[test]
fn graphics_without_window_is_ignored() {
    let mut app = ObitoApp::new("Demo".to_string(), 800, 600);
    app.step(AppEvent::GraphicsReady);
    assert!(!app.has_graphics());
}

#[test]
fn close_exits() {
    let mut app = running_app();
    assert!(matches!(app.step(AppEvent::CloseRequested), AppAction::Exit));
    let mut fresh = ObitoApp::new("Demo".to_string(), 1, 1);
    assert!(matches!(fresh.step(AppEvent::CloseRequested), AppAction::Exit));
}

#[test]
fn resize_and_redraw_need_graphics() {
    let mut app = ObitoApp::new("Demo".to_string(), 800, 600);
    assert!(matches!(app.step(AppEvent::Resized { width: 5, height: 6 }), AppAction::Nothing));
    assert!(matches!(app.step(AppEvent::RedrawRequested), AppAction::Nothing));
    assert!(matches!(app.step(AppEvent::AboutToWait), AppAction::Nothing));
    let mut app = running_app();
    assert!(matches!(
        app.step(AppEvent::Resized { width: 5, height: 6 }),
        AppAction::ResizeSurface { width: 5, height: 6 }
    ));
    assert!(matches!(app.step(AppEvent::RedrawRequested), AppAction::Render));
    assert!(matches!(app.step(AppEvent::AboutToWait), AppAction::RequestRedraw));
    assert!(matches!(app.step(AppEvent::RenderSucceeded), AppAction::Nothing));
    assert!(matches!(app.step(AppEvent::Other), AppAction::Nothing));
}

#[test]
fn redraw_is_requested_once_the_window_exists() {
    let mut app = ObitoApp::new("Demo".to_string(), 800, 600);
    app.step(AppEvent::Resumed);
    app.step(AppEvent::WindowCreated);
    assert!(matches!(app.step(AppEvent::AboutToWait), AppAction::RequestRedraw));
}

#[test]
fn render_failures_by_message() {
    let mut app = running_app();
    assert!(matches!(
        app.step(AppEvent::RenderFailed { message: "Surface Lost".to_string() }),
        AppAction::ResizeToWindow
    ));
    assert!(matches!(
        app.step(AppEvent::RenderFailed { message: "OutOfMemory".to_string() }),
        AppAction::ExitOutOfMemory
    ));
    match app.step(AppEvent::RenderFailed { message: "boom".to_string() }) {
        AppAction::ReportRenderError { message } => assert_eq!(message, "boom"),
        other => panic!("unexpected {:?}", other),
    }
}

#[test]
fn lost_surface_is_answered_by_a_resize() {
    let mut app = running_app();
    let message = frame_outcome(SurfaceStatus::Lost).unwrap_err();
    assert!(matches!(app.step(AppEvent::RenderFailed { message }), AppAction::ResizeToWindow));
    assert!(app.has_window() && app.has_graphics());
}

#[test]
fn every_other_frame_error_is_only_reported() {
    for status in [
        SurfaceStatus::Suboptimal,
        SurfaceStatus::Timeout,
        SurfaceStatus::Occluded,
        SurfaceStatus::Outdated,
        SurfaceStatus::Validation,
    ] {
        let mut app = running_app();
        let message = frame_outcome(status).unwrap_err();
        match app.step(AppEvent::RenderFailed { message: message.clone() }) {
            AppAction::ReportRenderError { message: m } => assert_eq!(m, message),
            other => panic!("unexpected {:?}", other),
        }
        assert!(app.has_window() && app.has_graphics());
    }
}

#[test]
fn render_failure_matching_ignores_case() {
    let mut app = running_app();
    assert!(matches!(
        app.step(AppEvent::RenderFailed { message: "surface LOST".to_string() }),
        AppAction::ResizeToWindow
    ));
    assert!(matches!(
        app.step(AppEvent::RenderFailed { message: "gpu outofmemory".to_string() }),
        AppAction::ExitOutOfMemory
    ));
}

#[test]
fn each_callback_leaves_window_and_graphics_together() {
    let mut app = ObitoApp::new("Demo".to_string(), 800, 600);
    let mut action = app.step(AppEvent::Resumed);
    loop {
        let reply = match action {
            AppAction::CreateWindow { .. } => AppEvent::WindowCreated,
            AppAction::InitGraphics => AppEvent::GraphicsReady,
            _ => break,
        };
        action = app.step(reply);
    }
    assert!(app.has_window() && app.has_graphics());
}

#[test]
fn render_failure_without_graphics_does_nothing() {
    let mut app = ObitoApp::new("Demo".to_string(), 800, 600);
    assert!(matches!(
        app.step(AppEvent::RenderFailed { message: "Surface Lost".to_string() }),
        AppAction::Nothing
    ));
}
