//! What can go wrong.

use vstd::prelude::*;

verus! {

/// Errors that may happen when driving the event loop of a `WinitInputBackend`.
#[derive(Debug, Clone, Copy, PartialEq, Eq, Hash, Structural)]
pub enum WinitInputError {
    /// The window was closed.  No further events can be processed.
    WindowClosed,
}

impl WinitInputError {
    /// The error in words.
    pub fn description(&self) -> (r: &'static str)
        ensures
            r@ == "Glutin Window was closed"@,
    {
        match *self {
            WinitInputError::WindowClosed => "Glutin Window was closed",
        }
    }

    /// The error as it is shown to a user: its description.
    pub fn to_string(&self) -> (r: String)
        ensures
            r@ == "Glutin Window was closed"@,
    {
        self.description().to_owned()
    }
}

/// Reasons why a window with a rendering context cannot be set up.  `E` is the error of the
/// rendering layer.
#[derive(Debug)]
pub enum ErrorKind<E> {
    /// Failed to initialize a window.
    InitFailed,
    /// Context creation is not supported on the current window system.
    NotSupported,
    /// The rendering layer failed.
    EGL(E),
}

/// Why a window with a rendering context cannot be set up, and what brought that about.
#[derive(Debug)]
pub struct Error<C, E> {
    /// The reason.
    pub kind: ErrorKind<E>,
    /// Why the window could not be built, where that is the reason.
    pub cause: Option<C>,
}

impl<E> ErrorKind<E> {
    /// The error in words, where it is one of the backend's own.  An error of the rendering
    /// layer speaks for itself.
    pub fn description(&self) -> (r: Option<&'static str>)
        ensures
            match *self {
                ErrorKind::InitFailed => r matches Some(text) && text@ == "Failed to initialize a window"@,
                ErrorKind::NotSupported => r matches Some(text) && text@
                    == "Context creation is not supported on the current window system."@,
                ErrorKind::EGL(_) => r is None,
            },
    {
        match self {
            ErrorKind::InitFailed => Some("Failed to initialize a window"),
            ErrorKind::NotSupported => Some("Context creation is not supported on the current window system."),
            ErrorKind::EGL(_) => None,
        }
    }
}

} // verus!
