use smithay_winit::backend::WinitInputBackend;
use smithay_winit::error::{Error, ErrorKind};
use smithay_winit::graphics::WinitGraphicsBackend;
use smithay_winit::init::{
    init, init_from_builder, init_from_builder_with_gl_attr, GlAttributes, GlProfile, InitEvent,
    InitRequest, Initialization, Setup, WindowAttributes,
};
use smithay_winit::window::WindowSystem;

type Backends = (WinitGraphicsBackend, WinitInputBackend<u8>);

/// Runs a setup against given answers; returns what was asked for and how it ended.
fn run(
    mut initialization: Initialization<&'static str, &'static str>,
    answers: Vec<InitEvent<&'static str, &'static str>>,
) -> (Vec<InitRequest>, Result<Backends, Error<&'static str, &'static str>>) {
    let mut requests = Vec::new();
    let mut answers = answers.into_iter();
    while let Some(request) = initialization.request() {
        requests.push(request);
        initialization = initialization.advance(answers.next().expect("one answer for each request"));
    }
    assert!(answers.next().is_none());
    (requests, initialization.finish())
}

fn attributes() -> GlAttributes {
    GlAttributes { version: Some((3, 2)), profile: Some(GlProfile::Core), debug: false, vsync: false }
}

fn start() -> Initialization<&'static str, &'static str> {
    let setup: Setup<u8, &'static str, &'static str> = init_from_builder_with_gl_attr(5, attributes());
    assert_eq!(setup.builder, 5);
    setup.initialization
}

#[test]
fn usual_window() {
    let setup: Setup<WindowAttributes, (), ()> = init(true);
    assert_eq!((setup.builder.width, setup.builder.height), (1280, 800));
    assert_eq!(setup.builder.title, "Smithay");
    assert!(setup.builder.visible);
    let usual = GlAttributes { version: None, profile: None, debug: true, vsync: true };
    assert_eq!(setup.initialization.attributes, usual);
    assert_eq!(setup.initialization.request(), Some(InitRequest::BuildWindow));
}

#[test]
fn usual_context() {
    let setup: Setup<&'static str, (), ()> = init_from_builder("builder", false);
    assert_eq!(setup.builder, "builder");
    let usual = GlAttributes { version: None, profile: None, debug: false, vsync: true };
    assert_eq!(setup.initialization.attributes, usual);
}

#[test]
fn wayland_comes_first() {
    let (requests, end) = run(
        start(),
        vec![
            InitEvent::Built(Ok(())),
            InitEvent::Probed(true),
            InitEvent::Created(Ok(())),
            InitEvent::Created(Ok(())),
        ],
    );
    assert_eq!(
        requests,
        vec![
            InitRequest::BuildWindow,
            InitRequest::Probe(WindowSystem::Wayland),
            InitRequest::CreateContext(WindowSystem::Wayland, attributes()),
            InitRequest::CreateSurface(WindowSystem::Wayland),
        ]
    );
    let (graphics, input) = end.ok().expect("backends");
    assert_eq!(graphics.system, WindowSystem::Wayland);
    assert_eq!((input.time_counter(), input.key_counter()), (0, 0));
}

#[test]
fn x11_comes_second() {
    let (requests, end) = run(
        start(),
        vec![
            InitEvent::Built(Ok(())),
            InitEvent::Probed(false),
            InitEvent::Probed(true),
            InitEvent::Created(Ok(())),
            InitEvent::Created(Ok(())),
        ],
    );
    assert_eq!(
        requests,
        vec![
            InitRequest::BuildWindow,
            InitRequest::Probe(WindowSystem::Wayland),
            InitRequest::Probe(WindowSystem::X11),
            InitRequest::CreateContext(WindowSystem::X11, attributes()),
            InitRequest::CreateSurface(WindowSystem::X11),
        ]
    );
    assert_eq!(end.ok().expect("backends").0.system, WindowSystem::X11);
}

#[test]
fn no_window() {
    let (requests, end) = run(start(), vec![InitEvent::Built(Err("no display"))]);
    assert_eq!(requests.len(), 1);
    assert!(matches!(end, Err(Error { kind: ErrorKind::InitFailed, cause: Some("no display") })));
}

#[test]
fn no_supported_window_system() {
    let answers = vec![InitEvent::Built(Ok(())), InitEvent::Probed(false), InitEvent::Probed(false)];
    let (requests, end) = run(start(), answers);
    assert_eq!(requests.len(), 3);
    assert!(matches!(end, Err(Error { kind: ErrorKind::NotSupported, cause: None })));
}

#[test]
fn no_context() {
    let answers =
        vec![InitEvent::Built(Ok(())), InitEvent::Probed(true), InitEvent::Created(Err("no context"))];
    let (requests, end) = run(start(), answers);
    assert_eq!(requests.len(), 3);
    assert!(matches!(end, Err(Error { kind: ErrorKind::EGL("no context"), cause: None })));
}

#[test]
fn no_surface() {
    let answers = vec![
        InitEvent::Built(Ok(())),
        InitEvent::Probed(false),
        InitEvent::Probed(true),
        InitEvent::Created(Ok(())),
        InitEvent::Created(Err("no surface")),
    ];
    let (requests, end) = run(start(), answers);
    assert_eq!(requests.len(), 5);
    assert!(matches!(end, Err(Error { kind: ErrorKind::EGL("no surface"), cause: None })));
}
