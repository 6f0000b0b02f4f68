//! Setting up a window with a rendering context.
//!
//! The steps are taken one at a time: `Initialization::request` says what to do next, and
//! `Initialization::advance` takes in how it went.

use crate::backend::WinitInputBackend;
use crate::error::{Error, ErrorKind};
use crate::graphics::WinitGraphicsBackend;
use crate::window::WindowSystem;
use vstd::prelude::*;

verus! {

/// A set of rendering functions.
#[derive(Debug, Clone, Copy, PartialEq, Eq, Hash, Structural)]
pub enum GlProfile {
    /// Without what is deprecated.
    Core,
    /// With what is deprecated.
    Compatibility,
}

/// Wishes for a rendering context.
#[derive(Debug, Clone, Copy, PartialEq, Eq, Hash)]
pub struct GlAttributes {
    /// Major and minor version, or the newest one.
    pub version: Option<(u8, u8)>,
    /// The set of functions, or the usual one.
    pub profile: Option<GlProfile>,
    /// Whether the context helps in finding errors.
    pub debug: bool,
    /// Whether frames wait for the display.
    pub vsync: bool,
}

/// Wishes for a window.
#[derive(Debug)]
pub struct WindowAttributes {
    /// The width.
    pub width: u32,
    /// The height.
    pub height: u32,
    /// The title.
    pub title: String,
    /// Whether the window is shown.
    pub visible: bool,
}

/// How far the setup has come.  `C` is why a window cannot be built, and `E` the error of the
/// rendering layer.
#[derive(Debug)]
pub enum InitStage<C, E> {
    /// There is no window yet.
    Building,
    /// There is a window, perhaps one of Wayland.
    ProbingWayland,
    /// There is a window, not one of Wayland, perhaps one of X11.
    ProbingX11,
    /// The window's system is known.
    Connecting(WindowSystem),
    /// There is a rendering context.
    Drawing(WindowSystem),
    /// There is a surface to draw on: all is done.
    Ready(WindowSystem),
    /// The setup has failed.
    Failed(Error<C, E>),
}

/// What to do next.
#[derive(Debug, Clone, Copy, PartialEq, Eq, Hash)]
pub enum InitRequest {
    /// Build the window.
    BuildWindow,
    /// Find out whether the window is one of the given window system.
    Probe(WindowSystem),
    /// Create a rendering context for the window, with these attributes.
    CreateContext(WindowSystem, GlAttributes),
    /// Create a surface of the context.
    CreateSurface(WindowSystem),
}

/// How it went.
#[derive(Debug)]
pub enum InitEvent<C, E> {
    /// Whether the window was built, or why not.
    Built(Result<(), C>),
    /// Whether the window is one of the window system that was asked about.
    Probed(bool),
    /// Whether the context or the surface was created, or why not.
    Created(Result<(), E>),
}

/// A setup under way.
#[derive(Debug)]
pub struct Initialization<C, E> {
    /// The attributes of the rendering context.
    pub attributes: GlAttributes,
    /// How far the setup has come.
    pub stage: InitStage<C, E>,
}

/// A setup that is about to start, and what the window is to be built from.
#[derive(Debug)]
pub struct Setup<B, C, E> {
    /// What to build the window from.
    pub builder: B,
    /// The steps to take.
    pub initialization: Initialization<C, E>,
}

impl<C, E> InitStage<C, E> {
    /// Whether the setup has come to an end.
    pub open spec fn ended(self) -> bool {
        self is Ready || self is Failed
    }

    /// What to do next, unless the setup has come to an end.
    pub open spec fn request(self, attributes: GlAttributes) -> Option<InitRequest> {
        match self {
            InitStage::Building => Some(InitRequest::BuildWindow),
            InitStage::ProbingWayland => Some(InitRequest::Probe(WindowSystem::Wayland)),
            InitStage::ProbingX11 => Some(InitRequest::Probe(WindowSystem::X11)),
            InitStage::Connecting(system) => Some(InitRequest::CreateContext(system, attributes)),
            InitStage::Drawing(system) => Some(InitRequest::CreateSurface(system)),
            InitStage::Ready(_) | InitStage::Failed(_) => None,
        }
    }

    /// Whether an event answers what was asked for.
    pub open spec fn expects(self, event: InitEvent<C, E>) -> bool {
        match self {
            InitStage::Building => event is Built,
            InitStage::ProbingWayland | InitStage::ProbingX11 => event is Probed,
            InitStage::Connecting(_) | InitStage::Drawing(_) => event is Created,
            InitStage::Ready(_) | InitStage::Failed(_) => false,
        }
    }

    /// The stage after an event.
    pub open spec fn after(self, event: InitEvent<C, E>) -> InitStage<C, E>
        recommends
            self.expects(event),
    {
        match (self, event) {
            (InitStage::Building, InitEvent::Built(Ok(_))) => InitStage::ProbingWayland,
            (InitStage::Building, InitEvent::Built(Err(cause))) => InitStage::Failed(
                Error { kind: ErrorKind::InitFailed, cause: Some(cause) },
            ),
            (InitStage::ProbingWayland, InitEvent::Probed(found)) => if found {
                InitStage::Connecting(WindowSystem::Wayland)
            } else {
                InitStage::ProbingX11
            },
            (InitStage::ProbingX11, InitEvent::Probed(found)) => if found {
                InitStage::Connecting(WindowSystem::X11)
            } else {
                InitStage::Failed(Error { kind: ErrorKind::NotSupported, cause: None })
            },
            (InitStage::Connecting(system), InitEvent::Created(Ok(_))) => InitStage::Drawing(system),
            (InitStage::Drawing(system), InitEvent::Created(Ok(_))) => InitStage::Ready(system),
            (_, InitEvent::Created(Err(error))) => InitStage::Failed(
                Error { kind: ErrorKind::EGL(error), cause: None },
            ),
            _ => self,
        }
    }

    /// The stage after a number of events.
    pub open spec fn after_all(self, events: Seq<InitEvent<C, E>>) -> InitStage<C, E>
        decreases events.len(),
    {
        if events.len() == 0 {
            self
        } else {
            self.after_all(events.drop_last()).after(events.last())
        }
    }

    /// Whether each of a number of events answers what was asked for in its turn.
    pub open spec fn expects_all(self, events: Seq<InitEvent<C, E>>) -> bool {
        forall|i: int|
            0 <= i < events.len() ==> self.after_all(events.take(i)).expects(#[trigger] events[i])
    }
}

/// Starts the setup of a visible window of 1280 by 800 that is called "Smithay".  `debug` says
/// whether the rendering context helps in finding errors.
pub fn init<C, E>(debug: bool) -> (r: Setup<WindowAttributes, C, E>)
    ensures
        r.builder.width == 1280,
        r.builder.height == 800,
        r.builder.title@ == "Smithay"@,
        r.builder.visible,
        r.initialization == (Initialization {
            attributes: GlAttributes { version: None, profile: None, debug, vsync: true },
            stage: InitStage::<C, E>::Building,
        }),
{
    init_from_builder(
        WindowAttributes { width: 1280, height: 800, title: "Smithay".to_owned(), visible: true },
        debug,
    )
}

/// Starts the setup of a window from a given builder, with a rendering context of the usual
/// kind that waits for the display.
pub fn init_from_builder<B, C, E>(builder: B, debug: bool) -> (r: Setup<B, C, E>)
    ensures
        r.builder == builder,
        r.initialization == (Initialization {
            attributes: GlAttributes { version: None, profile: None, debug, vsync: true },
            stage: InitStage::<C, E>::Building,
        }),
{
    init_from_builder_with_gl_attr(
        builder,
        GlAttributes { version: None, profile: None, debug, vsync: true },
    )
}

/// Starts the setup of a window from a given builder, with given attributes for the rendering
/// context.
pub fn init_from_builder_with_gl_attr<B, C, E>(
    builder: B,
    attributes: GlAttributes,
) -> (r: Setup<B, C, E>)
    ensures
        r.builder == builder,
        r.initialization == (Initialization { attributes, stage: InitStage::<C, E>::Building }),
{
    Setup { builder, initialization: Initialization { attributes, stage: InitStage::Building } }
}

impl<C, E> Initialization<C, E> {
    /// What to do next; nothing once the setup has come to an end.
    pub fn request(&self) -> (r: Option<InitRequest>)
        ensures
            r == self.stage.request(self.attributes),
            r matches Some(InitRequest::CreateContext(_, wanted)) ==> wanted == self.attributes,
            r is None <==> self.stage.ended(),
    {
        match self.stage {
            InitStage::Building => Some(InitRequest::BuildWindow),
            InitStage::ProbingWayland => Some(InitRequest::Probe(WindowSystem::Wayland)),
            InitStage::ProbingX11 => Some(InitRequest::Probe(WindowSystem::X11)),
            InitStage::Connecting(system) => Some(
                InitRequest::CreateContext(system, self.attributes),
            ),
            InitStage::Drawing(system) => Some(InitRequest::CreateSurface(system)),
            InitStage::Ready(_) => None,
            InitStage::Failed(_) => None,
        }
    }

    /// Takes in how the last request went.
    pub fn advance(self, event: InitEvent<C, E>) -> (r: Initialization<C, E>)
        requires
            self.stage.expects(event),
        ensures
            r == (Initialization { stage: self.stage.after(event), ..self }),
            r.attributes == self.attributes,
    {
        let attributes = self.attributes;
        let stage: InitStage<C, E> = match (self.stage, event) {
            (InitStage::Building, InitEvent::Built(Ok(_))) => InitStage::ProbingWayland,
            (InitStage::Building, InitEvent::Built(Err(cause))) => InitStage::Failed(
                Error { kind: ErrorKind::InitFailed, cause: Some(cause) },
            ),
            (InitStage::ProbingWayland, InitEvent::Probed(true)) => InitStage::Connecting(
                WindowSystem::Wayland,
            ),
            (InitStage::ProbingWayland, InitEvent::Probed(false)) => InitStage::ProbingX11,
            (InitStage::ProbingX11, InitEvent::Probed(true)) => InitStage::Connecting(
                WindowSystem::X11,
            ),
            (InitStage::ProbingX11, InitEvent::Probed(false)) => InitStage::Failed(
                Error { kind: ErrorKind::NotSupported, cause: None },
            ),
            (InitStage::Connecting(system), InitEvent::Created(Ok(_))) => InitStage::Drawing(system),
            (InitStage::Drawing(system), InitEvent::Created(Ok(_))) => InitStage::Ready(system),
            (_, InitEvent::Created(Err(error))) => InitStage::Failed(
                Error { kind: ErrorKind::EGL(error), cause: None },
            ),
            // Only reached by an event that nothing asked for, which the precondition rules out.
            (stage, _) => stage,
        };
        Initialization { attributes, stage }
    }

    /// The two backends of the window, or why there are none, once the setup has come to an
    /// end.  Where no window could be built, the error holds what kept it from being built.
    pub fn finish<H>(self) -> (r: Result<(WinitGraphicsBackend, WinitInputBackend<H>), Error<C, E>>)
        requires
            self.stage.ended(),
        ensures
            self.stage matches InitStage::Failed(error) ==> r == Err::<
                (WinitGraphicsBackend, WinitInputBackend<H>),
                _,
            >(error),
            self.stage matches InitStage::Ready(system) ==> {
                &&& r matches Ok((graphics, input))
                &&& graphics.system == system
                &&& input@ == WinitInputBackend::<H>::initial(system)
                &&& input@.wf()
            },
    {
        match self.stage {
            InitStage::Failed(error) => Err(error),
            InitStage::Ready(system) => Ok(
                (WinitGraphicsBackend::new(system), WinitInputBackend::new(system)),
            ),
            // Only reached before the end, which the precondition rules out.
            _ => Err(Error { kind: ErrorKind::InitFailed, cause: None }),
        }
    }
}

} // verus!
