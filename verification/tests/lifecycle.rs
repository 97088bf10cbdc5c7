use render_lifecycle::app::App;
use render_lifecycle::command::{
    AdapterRequest, Command, DeviceRequest, DrawRequest, LimitsBase, LoadOp, MemoryHints, Outcome,
    PassRequest, PipelineRequest, PowerPreference, Rgba, Step, StoreOp,
};
use render_lifecycle::event::{DeviceEvent, PhysicalSize, WindowEvent, WindowId};
use render_lifecycle::model::{Halt, Phase};
use render_lifecycle::surface::SurfaceConfig;
use wgpu::TextureFormat;

const ALL_STEPS: [Step; 7] = [
    Step::Window,
    Step::Surface,
    Step::Adapter,
    Step::Device,
    Step::Config,
    Step::Pipeline,
    Step::Configure,
];

fn config(width: u32, height: u32) -> SurfaceConfig {
    SurfaceConfig::new(width, height, TextureFormat::Bgra8UnormSrgb)
}

fn frame() -> Vec<Command> {
    vec![
        Command::AcquireImage,
        Command::BeginEncoding,
        Command::BeginPass(PassRequest {
            load: LoadOp::Clear(Rgba { red: 0, green: 0, blue: 0, alpha: 255 }),
            store: StoreOp::Store,
        }),
        Command::BindPipeline,
        Command::Draw(DrawRequest {
            first_vertex: 0,
            end_vertex: 3,
            first_instance: 0,
            end_instance: 1,
        }),
        Command::EndPass,
        Command::Submit,
        Command::Present,
    ]
}

/// Runs the chain up to the point where the configuration is awaited.
fn activate_up_to_config(app: &mut App) -> Vec<Command> {
    let mut seen = app.resumed();
    seen.extend(app.report(Outcome::WindowCreated));
    seen.extend(app.report(Outcome::SurfaceCreated));
    seen.extend(app.report(Outcome::AdapterSelected));
    seen.extend(app.report(Outcome::DeviceGranted));
    seen
}

fn ready_app(width: u32, height: u32) -> App {
    let mut app = App::new();
    activate_up_to_config(&mut app);
    app.report(Outcome::ConfigDerived(config(width, height)));
    assert!(app.is_ready());
    app
}

fn count(commands: &[Command], wanted: &Command) -> usize {
    commands.iter().filter(|c| *c == wanted).count()
}

#[test]
fn new_app_is_inactive_and_holds_nothing() {
    let app = App::new();
    assert!(!app.is_active());
    assert!(!app.is_ready());
    assert!(!app.is_halted());
    assert_eq!(app.phase(), Phase::Inactive);
    assert_eq!(app.halt(), None);
    assert_eq!(app.surface_config(), None);
    assert_eq!(app.pending_resize(), None);
    assert_eq!(app.pending_events(), 0);
    for step in ALL_STEPS {
        assert!(!app.has(step));
    }
}

#[test]
fn default_is_new() {
    let app = App::default();
    assert_eq!(app.phase(), Phase::Inactive);
    assert_eq!(app.pending_events(), 0);
    assert!(!app.has(Step::Window));
}

#[test]
fn activation_runs_the_whole_chain_in_order() {
    let mut app = App::new();
    assert_eq!(app.resumed(), vec![Command::CreateWindow]);
    assert!(app.is_active());
    assert!(!app.is_ready());
    assert_eq!(app.phase(), Phase::Activating);

    assert_eq!(app.report(Outcome::WindowCreated), vec![Command::CreateSurface]);
    assert!(app.has(Step::Window));
    assert!(!app.has(Step::Surface));

    assert_eq!(
        app.report(Outcome::SurfaceCreated),
        vec![Command::RequestAdapter(AdapterRequest {
            power_preference: PowerPreference::HighPerformance,
            force_fallback_adapter: false,
            compatible_surface: true,
        })]
    );
    assert!(app.has(Step::Surface));
    assert!(!app.has(Step::Adapter));

    assert_eq!(
        app.report(Outcome::AdapterSelected),
        vec![Command::RequestDevice(DeviceRequest {
            required_features: 0,
            limits: LimitsBase::DownlevelWebgl2,
            adapter_resolution: true,
            memory_hints: MemoryHints::MemoryUsage,
        })]
    );
    assert!(app.has(Step::Adapter));
    assert!(!app.has(Step::Device));

    assert_eq!(app.report(Outcome::DeviceGranted), vec![Command::DeriveConfig]);
    assert!(app.has(Step::Device));
    assert!(!app.has(Step::Config));
    assert!(!app.is_ready());

    let derived = config(640, 480);
    assert_eq!(
        app.report(Outcome::ConfigDerived(derived)),
        vec![
            Command::BuildPipeline(PipelineRequest { format: TextureFormat::Bgra8UnormSrgb }),
            Command::ConfigureSurface(derived),
        ]
    );
    assert!(app.is_ready());
    assert_eq!(app.phase(), Phase::Ready);
    assert_eq!(app.surface_config(), Some(derived));
    for step in ALL_STEPS {
        assert!(app.has(step), "{step:?} is missing");
    }
    assert!(!app.is_halted());
}

#[test]
fn second_activation_creates_nothing() {
    let mut app = App::new();
    let mut seen = activate_up_to_config(&mut app);
    seen.extend(app.report(Outcome::ConfigDerived(config(640, 480))));
    let before = app.surface_config();
    assert_eq!(app.resumed(), Vec::<Command>::new());
    assert_eq!(app.resumed(), Vec::<Command>::new());
    seen.extend(app.resumed());
    assert!(app.is_ready());
    assert_eq!(app.surface_config(), before);
    assert_eq!(count(&seen, &Command::CreateWindow), 1);
    assert_eq!(count(&seen, &Command::CreateSurface), 1);
    assert_eq!(count(&seen, &Command::DeriveConfig), 1);
    assert_eq!(
        seen.iter().filter(|c| matches!(c, Command::RequestAdapter(_))).count(),
        1
    );
    assert_eq!(
        seen.iter().filter(|c| matches!(c, Command::RequestDevice(_))).count(),
        1
    );
    assert_eq!(
        seen.iter().filter(|c| matches!(c, Command::BuildPipeline(_))).count(),
        1
    );
}

#[test]
fn activation_while_the_chain_runs_is_ignored() {
    let mut app = App::new();
    assert_eq!(app.resumed(), vec![Command::CreateWindow]);
    assert_eq!(app.resumed(), Vec::<Command>::new());
    assert_eq!(app.phase(), Phase::Activating);
    assert_eq!(app.report(Outcome::WindowCreated), vec![Command::CreateSurface]);
    assert_eq!(app.resumed(), Vec::<Command>::new());
    assert!(app.has(Step::Window));
    assert!(!app.has(Step::Surface));
}

#[test]
fn events_before_readiness_are_held_back() {
    let mut app = App::new();
    assert_eq!(
        app.window_event(WindowId(7), WindowEvent::RedrawRequested),
        Vec::<Command>::new()
    );
    assert_eq!(app.pending_events(), 1);
    app.resumed();
    assert_eq!(
        app.window_event(WindowId(7), WindowEvent::CloseRequested),
        Vec::<Command>::new()
    );
    assert_eq!(app.pending_events(), 2);
    assert!(!app.is_halted());
    assert_eq!(app.pending_resize(), None);
}

#[test]
fn held_events_are_dispatched_in_arrival_order() {
    let mut app = App::new();
    app.resumed();
    app.window_event(WindowId(1), WindowEvent::Other("first".to_string()));
    app.report(Outcome::WindowCreated);
    app.window_event(WindowId(1), WindowEvent::CursorMoved);
    app.window_event(WindowId(2), WindowEvent::Other("second".to_string()));
    app.report(Outcome::SurfaceCreated);
    app.report(Outcome::AdapterSelected);
    app.window_event(WindowId(1), WindowEvent::RedrawRequested);
    app.report(Outcome::DeviceGranted);
    app.window_event(WindowId(1), WindowEvent::Other("third".to_string()));
    assert_eq!(app.pending_events(), 5);

    let derived = config(320, 200);
    let mut expected = vec![
        Command::BuildPipeline(PipelineRequest { format: TextureFormat::Bgra8UnormSrgb }),
        Command::ConfigureSurface(derived),
        Command::TraceWindowEvent("first".to_string()),
        Command::TraceWindowEvent("second".to_string()),
    ];
    expected.extend(frame());
    expected.push(Command::TraceWindowEvent("third".to_string()));
    assert_eq!(app.report(Outcome::ConfigDerived(derived)), expected);
    assert_eq!(app.pending_events(), 0);
    assert!(app.is_ready());
}

#[test]
fn replay_matches_live_delivery() {
    let events = vec![
        (WindowId(1), WindowEvent::Resized(PhysicalSize::new(10, 20))),
        (WindowId(1), WindowEvent::Other("key".to_string())),
        (WindowId(1), WindowEvent::RedrawRequested),
        (WindowId(1), WindowEvent::RedrawRequested),
        (WindowId(1), WindowEvent::MouseWheel),
    ];
    let derived = config(300, 300);

    let mut held = App::new();
    activate_up_to_config(&mut held);
    for (wid, event) in events.clone() {
        assert_eq!(held.window_event(wid, event), Vec::<Command>::new());
    }
    let replayed = held.report(Outcome::ConfigDerived(derived));

    let mut live = App::new();
    activate_up_to_config(&mut live);
    let mut direct = live.report(Outcome::ConfigDerived(derived));
    for (wid, event) in events {
        direct.extend(live.window_event(wid, event));
    }

    assert_eq!(replayed, direct);
    assert_eq!(held.surface_config(), live.surface_config());
    assert_eq!(held.surface_config(), Some(config(10, 20)));
    assert_eq!(held.pending_resize(), live.pending_resize());
    assert_eq!(held.pending_events(), 0);
}

#[test]
fn buffered_resizes_and_redraw_are_replayed_once_ready() {
    let mut app = App::new();
    app.resumed();
    assert_eq!(
        app.window_event(WindowId(1), WindowEvent::Resized(PhysicalSize::new(800, 600))),
        Vec::<Command>::new()
    );
    assert_eq!(
        app.window_event(WindowId(1), WindowEvent::Resized(PhysicalSize::new(1024, 768))),
        Vec::<Command>::new()
    );
    assert_eq!(
        app.window_event(WindowId(1), WindowEvent::RedrawRequested),
        Vec::<Command>::new()
    );
    assert_eq!(app.pending_events(), 3);
    assert_eq!(app.surface_config(), None);

    app.report(Outcome::WindowCreated);
    app.report(Outcome::SurfaceCreated);
    app.report(Outcome::AdapterSelected);
    app.report(Outcome::DeviceGranted);
    let derived = config(640, 480);
    let commands = app.report(Outcome::ConfigDerived(derived));

    let mut expected = vec![
        Command::BuildPipeline(PipelineRequest { format: TextureFormat::Bgra8UnormSrgb }),
        Command::ConfigureSurface(derived),
        Command::ConfigureSurface(config(1024, 768)),
    ];
    expected.extend(frame());
    expected.push(Command::RequestRedraw);
    assert_eq!(commands, expected);

    let last = app.surface_config().unwrap();
    assert_eq!(last.width, 1024);
    assert_eq!(last.height, 768);
    assert_eq!(last.format, TextureFormat::Bgra8UnormSrgb);
    assert_eq!(app.pending_resize(), None);
    assert_eq!(app.pending_events(), 0);
}

#[test]
fn resize_burst_configures_once_with_the_last_size() {
    let mut app = ready_app(640, 480);
    let mut seen = Vec::new();
    for (width, height) in [(100, 100), (200, 150), (300, 250), (1920, 1080)] {
        seen.extend(app.window_event(
            WindowId(1),
            WindowEvent::Resized(PhysicalSize::new(width, height)),
        ));
        assert_eq!(app.pending_resize(), Some(PhysicalSize::new(width, height)));
        assert_eq!(app.surface_config(), Some(config(640, 480)));
    }
    assert_eq!(seen, Vec::<Command>::new());

    let commands = app.window_event(WindowId(1), WindowEvent::RedrawRequested);
    let mut expected = vec![Command::ConfigureSurface(config(1920, 1080))];
    expected.extend(frame());
    expected.push(Command::RequestRedraw);
    assert_eq!(commands, expected);
    assert_eq!(
        commands.iter().filter(|c| matches!(c, Command::ConfigureSurface(_))).count(),
        1
    );
    assert_eq!(app.surface_config(), Some(config(1920, 1080)));
    assert_eq!(app.pending_resize(), None);
}

#[test]
fn single_resize_then_redraw() {
    let mut app = ready_app(640, 480);
    app.window_event(WindowId(1), WindowEvent::Resized(PhysicalSize::new(1, 2)));
    let commands = app.window_event(WindowId(1), WindowEvent::RedrawRequested);
    assert_eq!(commands[0], Command::ConfigureSurface(config(1, 2)));
    assert_eq!(commands.last(), Some(&Command::RequestRedraw));
    assert_eq!(commands.len(), 10);
    // The follow-up redraw finds no resize pending and renders one frame.
    assert_eq!(app.window_event(WindowId(1), WindowEvent::RedrawRequested), frame());
    assert_eq!(app.surface_config(), Some(config(1, 2)));
}

#[test]
fn passive_events_between_resizes_change_nothing() {
    let mut app = ready_app(640, 480);
    app.window_event(WindowId(1), WindowEvent::Resized(PhysicalSize::new(50, 60)));
    for event in [WindowEvent::CursorMoved, WindowEvent::TouchpadPressure, WindowEvent::MouseWheel] {
        assert_eq!(app.window_event(WindowId(1), event), Vec::<Command>::new());
        assert_eq!(app.pending_resize(), Some(PhysicalSize::new(50, 60)));
        assert_eq!(app.surface_config(), Some(config(640, 480)));
    }
}

#[test]
fn redraw_without_pending_resize_renders_one_frame() {
    let mut app = ready_app(640, 480);
    let commands = app.window_event(WindowId(1), WindowEvent::RedrawRequested);
    assert_eq!(commands, frame());
    assert_eq!(count(&commands, &Command::AcquireImage), 1);
    assert_eq!(count(&commands, &Command::Submit), 1);
    assert_eq!(count(&commands, &Command::Present), 1);
    assert_eq!(commands.iter().filter(|c| matches!(c, Command::Draw(_))).count(), 1);
    assert_eq!(app.surface_config(), Some(config(640, 480)));
    assert_eq!(app.pending_resize(), None);
    assert!(!app.is_halted());
}

#[test]
fn frame_steps_agree_with_the_redraw() {
    let app = ready_app(640, 480);
    let pass = app.perform_render_pass();
    assert_eq!(pass, frame()[2..6].to_vec());
    assert_eq!(app.on_redraw(), frame());
}

#[test]
fn chain_steps_name_their_commands() {
    let app = ready_app(640, 480);
    assert_eq!(app.init_window(), Command::CreateWindow);
    assert_eq!(app.init_surface(), Command::CreateSurface);
    assert_eq!(
        app.init_adapter(),
        Command::RequestAdapter(AdapterRequest {
            power_preference: PowerPreference::HighPerformance,
            force_fallback_adapter: false,
            compatible_surface: true,
        })
    );
    assert_eq!(
        app.init_device(),
        Command::RequestDevice(DeviceRequest {
            required_features: 0,
            limits: LimitsBase::DownlevelWebgl2,
            adapter_resolution: true,
            memory_hints: MemoryHints::MemoryUsage,
        })
    );
    assert_eq!(app.init_config(), Command::DeriveConfig);
    assert_eq!(
        app.init_pipeline(),
        Command::BuildPipeline(PipelineRequest { format: TextureFormat::Bgra8UnormSrgb })
    );
    assert_eq!(app.configure_surface(), Command::ConfigureSurface(config(640, 480)));
}

#[test]
fn on_resize_keeps_the_format() {
    let mut app = App::new();
    activate_up_to_config(&mut app);
    app.report(Outcome::ConfigDerived(SurfaceConfig::new(
        640,
        480,
        TextureFormat::Rgba16Float,
    )));
    let expected = SurfaceConfig::new(31, 17, TextureFormat::Rgba16Float);
    assert_eq!(
        app.on_resize(PhysicalSize::new(31, 17)),
        Command::ConfigureSurface(expected)
    );
    assert_eq!(app.surface_config(), Some(expected));
    assert!(app.is_ready());
}

#[test]
fn close_exits_once_and_ends_dispatch() {
    let mut app = ready_app(640, 480);
    assert_eq!(
        app.window_event(WindowId(1), WindowEvent::CloseRequested),
        vec![Command::Exit]
    );
    assert!(app.is_halted());
    assert_eq!(app.halt(), Some(Halt::Closed));
    assert!(app.is_ready());

    let silence = Vec::<Command>::new();
    assert_eq!(app.window_event(WindowId(1), WindowEvent::RedrawRequested), silence);
    assert_eq!(app.window_event(WindowId(1), WindowEvent::CloseRequested), silence);
    assert_eq!(app.window_event(WindowId(1), WindowEvent::Destroyed), silence);
    assert_eq!(
        app.window_event(WindowId(1), WindowEvent::Resized(PhysicalSize::new(1, 1))),
        silence
    );
    assert_eq!(app.window_event(WindowId(1), WindowEvent::Other("x".to_string())), silence);
    assert_eq!(app.device_event(DeviceEvent::Other("y".to_string())), silence);
    assert_eq!(app.resumed(), silence);
    assert_eq!(app.report(Outcome::ImageUnavailable), silence);
    assert_eq!(app.halt(), Some(Halt::Closed));
    assert_eq!(app.pending_resize(), None);
    assert_eq!(app.pending_events(), 0);
}

#[test]
fn destroy_exits_like_close() {
    let mut app = ready_app(640, 480);
    assert_eq!(app.window_event(WindowId(9), WindowEvent::Destroyed), vec![Command::Exit]);
    assert_eq!(app.halt(), Some(Halt::Closed));
}

#[test]
fn queued_events_behind_a_close_are_dropped() {
    let mut app = App::new();
    activate_up_to_config(&mut app);
    app.window_event(WindowId(1), WindowEvent::Other("before".to_string()));
    app.window_event(WindowId(1), WindowEvent::CloseRequested);
    app.window_event(WindowId(1), WindowEvent::RedrawRequested);
    app.window_event(WindowId(1), WindowEvent::CloseRequested);
    app.window_event(WindowId(1), WindowEvent::Other("after".to_string()));
    let derived = config(640, 480);
    let commands = app.report(Outcome::ConfigDerived(derived));
    assert_eq!(
        commands,
        vec![
            Command::BuildPipeline(PipelineRequest { format: TextureFormat::Bgra8UnormSrgb }),
            Command::ConfigureSurface(derived),
            Command::TraceWindowEvent("before".to_string()),
            Command::Exit,
        ]
    );
    assert_eq!(count(&commands, &Command::Exit), 1);
    assert_eq!(app.halt(), Some(Halt::Closed));
    assert_eq!(app.pending_events(), 0);
}

#[test]
fn other_window_events_are_traced() {
    let mut app = ready_app(640, 480);
    assert_eq!(
        app.window_event(WindowId(1), WindowEvent::Other("Focused(true)".to_string())),
        vec![Command::TraceWindowEvent("Focused(true)".to_string())]
    );
    assert!(!app.is_halted());
    assert_eq!(app.surface_config(), Some(config(640, 480)));
}

#[test]
fn device_events_are_traced_unless_motion() {
    let mut app = App::new();
    assert_eq!(app.device_event(DeviceEvent::MouseMotion), Vec::<Command>::new());
    assert_eq!(
        app.device_event(DeviceEvent::Other("Added".to_string())),
        vec![Command::TraceDeviceEvent("Added".to_string())]
    );
    assert_eq!(app.pending_events(), 0);
    assert_eq!(app.phase(), Phase::Inactive);

    let mut ready = ready_app(640, 480);
    assert_eq!(ready.device_event(DeviceEvent::MouseMotion), Vec::<Command>::new());
    assert_eq!(
        ready.device_event(DeviceEvent::Other("Key".to_string())),
        vec![Command::TraceDeviceEvent("Key".to_string())]
    );
}
