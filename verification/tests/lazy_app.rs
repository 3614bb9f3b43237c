use lazy_winit::App;
use lazy_winit::Event;
use lazy_winit::RecordingHandler;
use lazy_winit::UnsafeApp;
use winit::event::DeviceEvent;
use winit::event::DeviceId;
use winit::event::StartCause;
use winit::event::WindowEvent;
use winit::window::WindowId;

#[derive(Debug, Clone, PartialEq, Eq)]
struct Options {
    title: String,
}

fn options(title: &str) -> Options {
    Options { title: title.to_string() }
}

type Checked = App<RecordingHandler<u32, Options>, Options>;
type Unchecked = UnsafeApp<RecordingHandler<u32, Options>, Options>;

fn close_requested() -> Event<u32> {
    Event::WindowEvent { window_id: WindowId::dummy(), event: WindowEvent::CloseRequested }
}

#[test]
fn activation_builds_handler_with_bundle() {
    let mut app: Checked = App::new(options("Hello"));
    assert!(!app.is_ready());

    app.handle_event(&(), Event::Resumed);

    assert!(app.is_ready());
    let handler = app.handler().expect("handler must exist after activation");
    assert_eq!(handler.args(), &options("Hello"));
    assert_eq!(handler.events().len(), 1);
    assert!(matches!(handler.events()[0], Event::Resumed));
}

#[test]
fn window_event_before_activation_is_dropped() {
    let mut app: Checked = App::new(options("B"));

    app.handle_event(&(), close_requested());

    assert!(!app.is_ready());
    assert!(app.handler().is_none());

    // The wrapper state was not mutated: activation still builds the handler
    // from the originally supplied bundle.
    app.handle_event(&(), Event::Resumed);
    let handler = app.handler().expect("handler must exist after activation");
    assert_eq!(handler.args(), &options("B"));
    assert_eq!(handler.events().len(), 1);
    assert!(matches!(handler.events()[0], Event::Resumed));
}

#[test]
fn several_callbacks_before_activation_are_dropped() {
    let mut app: Checked = App::new(options("B"));

    app.handle_event(&(), Event::NewEvents(StartCause::Poll));
    app.handle_event(&(), Event::UserEvent(3));
    app.handle_event(&(), Event::AboutToWait);
    app.handle_event(&(), Event::MemoryWarning);

    assert!(!app.is_ready());
    assert!(app.handler().is_none());
}

#[test]
fn user_event_after_activation_is_forwarded_exactly_once() {
    let mut app: Checked = App::new(options("B"));

    app.handle_event(&(), Event::Resumed);
    app.handle_event(&(), Event::UserEvent(42));

    let handler = app.handler().expect("handler must exist after activation");
    assert_eq!(handler.events().len(), 2);
    assert!(matches!(handler.events()[0], Event::Resumed));
    assert!(matches!(handler.events()[1], Event::UserEvent(42)));
}

#[test]
fn callbacks_are_forwarded_in_delivery_order() {
    let mut app: Checked = App::new(options("order"));

    app.handle_event(&(), Event::Resumed);
    app.handle_event(&(), Event::NewEvents(StartCause::Poll));
    app.handle_event(&(), close_requested());
    app.handle_event(&(), Event::UserEvent(1));
    app.handle_event(&(), Event::UserEvent(2));
    app.handle_event(&(), Event::AboutToWait);
    app.handle_event(&(), Event::Suspended);
    app.handle_event(&(), Event::MemoryWarning);
    app.handle_event(&(), Event::Exiting);

    let handler = app.handler().expect("handler must exist after activation");
    let events = handler.events();
    assert_eq!(events.len(), 9);
    assert!(matches!(events[0], Event::Resumed));
    assert!(matches!(events[1], Event::NewEvents(StartCause::Poll)));
    assert!(matches!(
        events[2],
        Event::WindowEvent { event: WindowEvent::CloseRequested, .. }
    ));
    assert!(matches!(events[3], Event::UserEvent(1)));
    assert!(matches!(events[4], Event::UserEvent(2)));
    assert!(matches!(events[5], Event::AboutToWait));
    assert!(matches!(events[6], Event::Suspended));
    assert!(matches!(events[7], Event::MemoryWarning));
    assert!(matches!(events[8], Event::Exiting));
}

#[test]
fn readiness_reports_the_double_activation_guard() {
    // A second activation must be treated as fatal by the caller, never as a
    // silent reconstruction; `is_ready` is the condition the caller checks
    // before forwarding an activation callback.
    let mut app: Checked = App::new(options("once"));
    assert!(!app.is_ready());

    app.handle_event(&(), Event::Resumed);

    assert!(app.is_ready());
    let handler = app.handler().expect("handler must exist after activation");
    assert_eq!(handler.events().len(), 1);
}

#[test]
fn unchecked_wrapper_builds_handler_with_bundle() {
    let mut app: Unchecked = UnsafeApp::new(options("Hello"));
    assert!(!app.is_ready());

    app.handle_event(&(), Event::Resumed);

    assert!(app.is_ready());
    let handler = app.handler().expect("handler must exist after activation");
    assert_eq!(handler.args(), &options("Hello"));
    assert_eq!(handler.events().len(), 1);
    assert!(matches!(handler.events()[0], Event::Resumed));
}

#[test]
fn unchecked_wrapper_forwards_like_the_checked_one_once_ready() {
    let mut checked: Checked = App::new(options("same"));
    let mut unchecked: Unchecked = UnsafeApp::new(options("same"));

    checked.handle_event(&(), Event::Resumed);
    unchecked.handle_event(&(), Event::Resumed);
    checked.handle_event(&(), close_requested());
    unchecked.handle_event(&(), close_requested());
    checked.handle_event(&(), Event::UserEvent(9));
    unchecked.handle_event(&(), Event::UserEvent(9));

    let a = checked.handler().expect("handler must exist after activation");
    let b = unchecked.handler().expect("handler must exist after activation");
    assert_eq!(a.args(), b.args());
    assert_eq!(a.events().len(), b.events().len());
    for (x, y) in a.events().iter().zip(b.events().iter()) {
        assert_eq!(std::mem::discriminant(x), std::mem::discriminant(y));
    }
    assert!(matches!(b.events()[0], Event::Resumed));
    assert!(matches!(
        b.events()[1],
        Event::WindowEvent { event: WindowEvent::CloseRequested, .. }
    ));
    assert!(matches!(b.events()[2], Event::UserEvent(9)));
}

#[test]
fn unchecked_wrapper_forwards_device_events() {
    let mut app: Unchecked = UnsafeApp::new(options("device"));

    app.handle_event(&(), Event::Resumed);
    app.handle_event(
        &(),
        Event::DeviceEvent {
            device_id: DeviceId::dummy(),
            event: DeviceEvent::MouseMotion { delta: (1.0, 2.0) },
        },
    );

    let handler = app.handler().expect("handler must exist after activation");
    assert_eq!(handler.events().len(), 2);
    assert!(matches!(
        handler.events()[1],
        Event::DeviceEvent { event: DeviceEvent::MouseMotion { delta: (1.0, 2.0) }, .. }
    ));
}
