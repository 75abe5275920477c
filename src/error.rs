use vstd::prelude::*;

verus! {

#[verifier::external_type_specification]
#[verifier::external_body]
pub struct ExEventLoopError(winit::error::EventLoopError);

#[verifier::external_type_specification]
#[verifier::external_body]
pub struct ExOsError(winit::error::OsError);

/// Any failure of the window event dispatch.
#[derive(Debug)]
pub enum Error {
    InitializationError(InitializationError),
    StartLoopError(StartLoopError),
    WindowCreationError(WindowCreationError),
    WindowAccessError(WindowAccessError),
    EventLoopProxyError(EventLoopProxyError),
}

/// The event loop could not be built.
#[derive(Debug)]
pub enum InitializationError {
    EventLoopCreationError(winit::error::EventLoopError),
}

/// The event loop could not be run.
#[derive(Debug)]
pub enum StartLoopError {
    /// The loop has been started before; it runs once.
    EventLoopAlreadyConsumedError,
    EventLoopRunAppError(winit::error::EventLoopError),
}

/// An event named a window that is not live.
#[derive(Clone, Copy, PartialEq, Eq, Structural, Debug)]
pub enum WindowAccessError {
    WindowNotFoundError(u64),
}

/// The windowing system refused a window.
#[derive(Debug)]
pub enum WindowCreationError {
    OSWindowCreationError(winit::error::OsError),
}

/// A request was sent after the loop had closed.
#[derive(Clone, Copy, PartialEq, Eq, Structural, Debug)]
pub enum EventLoopProxyError {
    EventLoopProxySendEventError,
}

} // verus!
