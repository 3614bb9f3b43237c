use vstd::prelude::*;

verus! {

/// Declares `winit::event::StartCause`, the payload of the new-cycle
/// callback. The wrappers carry it through untouched and never read it.
#[verifier::external_type_specification]
#[verifier::external_body]
pub struct ExStartCause(winit::event::StartCause);

/// Declares `winit::window::WindowId`, the identifier attached to a window
/// callback. Carried through untouched.
#[verifier::external_type_specification]
#[verifier::external_body]
pub struct ExWindowId(winit::window::WindowId);

/// Declares `winit::event::WindowEvent`, the payload of a window callback.
/// Carried through untouched.
#[verifier::external_type_specification]
#[verifier::external_body]
pub struct ExWindowEvent(winit::event::WindowEvent);

/// Declares `winit::event::DeviceId`, the identifier attached to a device
/// callback. Carried through untouched.
#[verifier::external_type_specification]
#[verifier::external_body]
pub struct ExDeviceId(winit::event::DeviceId);

/// Declares `winit::event::DeviceEvent`, the payload of a device callback.
/// Carried through untouched.
#[verifier::external_type_specification]
#[verifier::external_body]
pub struct ExDeviceEvent(winit::event::DeviceEvent);

/// One callback delivered by the host event loop, as a single tagged value.
///
/// The host-defined payloads pass through the wrappers without being read;
/// `E` is the application's user-event type. `Resumed` is the activation
/// callback: the cue that the host can now provide the context needed to
/// build the application's real handler.
#[allow(inconsistent_fields)]
pub enum Event<E> {
    /// A new cycle of the event loop has begun.
    NewEvents(winit::event::StartCause),
    /// The activation callback.
    Resumed,
    /// An application-defined event.
    UserEvent(E),
    /// An event concerning one of the application's windows.
    WindowEvent { window_id: winit::window::WindowId, event: winit::event::WindowEvent },
    /// An event from an input device.
    DeviceEvent { device_id: winit::event::DeviceId, event: winit::event::DeviceEvent },
    /// The loop is about to block and wait for new events.
    AboutToWait,
    /// The application was suspended by the host.
    Suspended,
    /// The event loop is about to exit.
    Exiting,
    /// The host signalled memory pressure.
    MemoryWarning,
}

} // verus!
