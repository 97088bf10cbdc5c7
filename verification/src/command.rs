//! What the controller asks of its host, and what the host reports back.

use vstd::prelude::*;
use crate::surface::SurfaceConfig;

verus! {

/// The steps of the resource chain, in the order in which they run.
#[derive(Clone, Copy, Debug, PartialEq, Eq, Hash, Structural)]
pub enum Step {
    Window,
    Surface,
    Adapter,
    Device,
    Config,
    Pipeline,
    Configure,
}

/// Which kind of adapter to favour.
#[derive(Clone, Copy, Debug, PartialEq, Eq, Hash, Structural)]
pub enum PowerPreference {
    NoPreference,
    LowPower,
    HighPerformance,
}

/// The options of an adapter request.
#[derive(Clone, Copy, Debug, PartialEq, Eq, Hash, Structural)]
pub struct AdapterRequest {
    pub power_preference: PowerPreference,
    /// Whether a software adapter is acceptable.
    pub force_fallback_adapter: bool,
    /// Whether the adapter has to be able to present to the surface.
    pub compatible_surface: bool,
}

/// The table of resource limits that a device request starts from.
#[derive(Clone, Copy, Debug, PartialEq, Eq, Hash, Structural)]
pub enum LimitsBase {
    Default,
    Downlevel,
    DownlevelWebgl2,
}

/// How the device's allocator weighs speed against memory.
#[derive(Clone, Copy, Debug, PartialEq, Eq, Hash, Structural)]
pub enum MemoryHints {
    Performance,
    MemoryUsage,
}

/// The options of a device request.
#[derive(Clone, Copy, Debug, PartialEq, Eq, Hash, Structural)]
pub struct DeviceRequest {
    /// Bit set of the optional features to enable; zero asks for none.
    pub required_features: u64,
    pub limits: LimitsBase,
    /// Whether the texture dimension limits are taken from the adapter.
    pub adapter_resolution: bool,
    pub memory_hints: MemoryHints,
}

/// What the render pipeline is built for.
#[derive(Clone, Copy, Debug, PartialEq, Eq)]
pub struct PipelineRequest {
    /// The colour format of the one target that the pipeline draws to.
    pub format: wgpu::TextureFormat,
}

/// A colour with eight bits for each channel.
#[derive(Clone, Copy, Debug, PartialEq, Eq, Hash, Structural)]
pub struct Rgba {
    pub red: u8,
    pub green: u8,
    pub blue: u8,
    pub alpha: u8,
}

/// What happens to the attachment when a pass begins.
#[derive(Clone, Copy, Debug, PartialEq, Eq, Hash, Structural)]
pub enum LoadOp {
    Clear(Rgba),
    Load,
}

/// What happens to the attachment when a pass ends.
#[derive(Clone, Copy, Debug, PartialEq, Eq, Hash, Structural)]
pub enum StoreOp {
    Store,
    Discard,
}

/// The one colour attachment of a render pass: the acquired image.
#[derive(Clone, Copy, Debug, PartialEq, Eq, Hash, Structural)]
pub struct PassRequest {
    pub load: LoadOp,
    pub store: StoreOp,
}

/// A non-indexed draw over `first..end` vertices and instances.
#[derive(Clone, Copy, Debug, PartialEq, Eq, Hash, Structural)]
pub struct DrawRequest {
    pub first_vertex: u32,
    pub end_vertex: u32,
    pub first_instance: u32,
    pub end_instance: u32,
}

/// The conditions that end the session abnormally.
#[derive(Clone, Copy, Debug, PartialEq, Eq, Hash, Structural)]
pub enum Fault {
    /// The operating system refused to create the window.
    WindowRefused,
    /// No surface could be created for the window.
    SurfaceRefused,
    /// No adapter is compatible with the surface.
    AdapterUnavailable,
    /// The adapter rejected the device request.
    DeviceRefused,
    /// The surface cannot be presented to with this adapter.
    ConfigUnavailable,
    /// The surface gave no image to draw to.
    ImageUnavailable,
    /// The outcome of a step came in while what the step depends on was
    /// missing, or after the step had been completed.
    OutOfSequence(Step),
}

/// One action that the host performs for the controller.
///
/// Commands are performed in the order in which they are handed out. The
/// host reports the [`Outcome`] of `CreateWindow`, `CreateSurface`,
/// `RequestAdapter`, `RequestDevice` and `DeriveConfig` at once, and the
/// failure of `AcquireImage`; the commands it gets in return come before
/// those it still holds. The other commands have no outcome.
#[derive(Clone, Debug, PartialEq, Eq)]
pub enum Command {
    /// Create the window with default attributes.
    CreateWindow,
    /// Create the presentation surface of the window.
    CreateSurface,
    RequestAdapter(AdapterRequest),
    RequestDevice(DeviceRequest),
    /// Derive the default configuration of the surface for the adapter and
    /// the window's present pixel size.
    DeriveConfig,
    /// Compile the shaders and build the render pipeline.
    BuildPipeline(PipelineRequest),
    /// Apply the configuration to the surface.
    ConfigureSurface(SurfaceConfig),
    /// Acquire the next presentable image of the surface.
    AcquireImage,
    /// Open a command recording scope.
    BeginEncoding,
    /// Begin a render pass that targets the acquired image.
    BeginPass(PassRequest),
    /// Bind the render pipeline in the open pass.
    BindPipeline,
    Draw(DrawRequest),
    /// Close the open pass.
    EndPass,
    /// Close the recording scope and submit it to the queue.
    Submit,
    /// Present the acquired image.
    Present,
    /// Ask the window for another redraw.
    RequestRedraw,
    /// Tell the event loop to exit.
    Exit,
    /// End the process with a message for this fault.
    Abort(Fault),
    /// Trace a window event that the policy does not handle.
    TraceWindowEvent(String),
    /// Trace a device event that the policy does not handle.
    TraceDeviceEvent(String),
}

/// What the host found when it performed a fallible command.
#[derive(Clone, Copy, Debug, PartialEq, Eq)]
pub enum Outcome {
    WindowCreated,
    WindowRefused,
    SurfaceCreated,
    SurfaceRefused,
    AdapterSelected,
    AdapterUnavailable,
    DeviceGranted,
    DeviceRefused,
    ConfigDerived(SurfaceConfig),
    ConfigUnavailable,
    ImageUnavailable,
}

/// The adapter request of the chain: the fastest adapter that can present
/// to the surface, and no software fallback.
pub open spec fn adapter_request() -> AdapterRequest {
    AdapterRequest {
        power_preference: PowerPreference::HighPerformance,
        force_fallback_adapter: false,
        compatible_surface: true,
    }
}

/// The device request of the chain: no optional feature, the most portable
/// limits at the adapter's own texture dimensions.
pub open spec fn device_request() -> DeviceRequest {
    DeviceRequest {
        required_features: 0,
        limits: LimitsBase::DownlevelWebgl2,
        adapter_resolution: true,
        memory_hints: MemoryHints::MemoryUsage,
    }
}

/// The background colour of every frame.
pub open spec fn background() -> Rgba {
    Rgba { red: 0, green: 0, blue: 0, alpha: 255 }
}

/// The pass of every frame: clear to the background, keep the result.
pub open spec fn pass_request() -> PassRequest {
    PassRequest { load: LoadOp::Clear(background()), store: StoreOp::Store }
}

/// The draw of every frame: three vertices, one instance.
pub open spec fn triangle() -> DrawRequest {
    DrawRequest { first_vertex: 0, end_vertex: 3, first_instance: 0, end_instance: 1 }
}

/// The commands of the one render pass of a frame.
pub open spec fn render_pass() -> Seq<Command> {
    seq![
        Command::BeginPass(pass_request()),
        Command::BindPipeline,
        Command::Draw(triangle()),
        Command::EndPass,
    ]
}

/// The commands of one frame, from acquiring the image to presenting it.
pub open spec fn frame() -> Seq<Command> {
    seq![Command::AcquireImage, Command::BeginEncoding] + render_pass()
        + seq![Command::Submit, Command::Present]
}

impl Fault {
    /// The message that the process ends with.
    pub open spec fn describe(self) -> Seq<char> {
        match self {
            Fault::WindowRefused => "The operating system refused window creation"@,
            Fault::SurfaceRefused => "Failed to create surface from window"@,
            Fault::AdapterUnavailable => "No adapter is compatible with the surface"@,
            Fault::DeviceRefused => "The adapter refused the device request"@,
            Fault::ConfigUnavailable => "The adapter cannot present to the surface"@,
            Fault::ImageUnavailable => "Failed to get surface texture on redraw request"@,
            Fault::OutOfSequence(step) => match step {
                Step::Window => "Attempted to initialize the window a second time"@,
                Step::Surface => "Attempted to initialize surface with no window"@,
                Step::Adapter => "Attempted to initialize adapter with no surface"@,
                Step::Device => "Attempted to initialize device with no adapter"@,
                Step::Config => "Attempted to derive a config with no device"@,
                Step::Pipeline => "Attempted to build the pipeline with no config"@,
                Step::Configure => "Attempted to configure a nonexistent surface"@,
            },
        }
    }

    /// The message that the process ends with.
    pub fn message(&self) -> (text: &'static str)
        ensures
            text@ == self.describe(),
    {
        match self {
            Fault::WindowRefused => "The operating system refused window creation",
            Fault::SurfaceRefused => "Failed to create surface from window",
            Fault::AdapterUnavailable => "No adapter is compatible with the surface",
            Fault::DeviceRefused => "The adapter refused the device request",
            Fault::ConfigUnavailable => "The adapter cannot present to the surface",
            Fault::ImageUnavailable => "Failed to get surface texture on redraw request",
            Fault::OutOfSequence(step) => match step {
                Step::Window => "Attempted to initialize the window a second time",
                Step::Surface => "Attempted to initialize surface with no window",
                Step::Adapter => "Attempted to initialize adapter with no surface",
                Step::Device => "Attempted to initialize device with no adapter",
                Step::Config => "Attempted to derive a config with no device",
                Step::Pipeline => "Attempted to build the pipeline with no config",
                Step::Configure => "Attempted to configure a nonexistent surface",
            },
        }
    }
}

impl Outcome {
    /// The step that the outcome belongs to; none for a frame's outcome.
    #[verifier::when_used_as_spec(spec_step)]
    pub fn step(&self) -> (step: Option<Step>)
        ensures
            step == self.spec_step(),
    {
        match self {
            Outcome::WindowCreated | Outcome::WindowRefused => Some(Step::Window),
            Outcome::SurfaceCreated | Outcome::SurfaceRefused => Some(Step::Surface),
            Outcome::AdapterSelected | Outcome::AdapterUnavailable => Some(Step::Adapter),
            Outcome::DeviceGranted | Outcome::DeviceRefused => Some(Step::Device),
            Outcome::ConfigDerived(_) | Outcome::ConfigUnavailable => Some(Step::Config),
            Outcome::ImageUnavailable => None,
        }
    }

    /// The fault that the outcome stands for; none where the command
    /// succeeded.
    #[verifier::when_used_as_spec(spec_fault)]
    pub fn fault(&self) -> (fault: Option<Fault>)
        ensures
            fault == self.spec_fault(),
    {
        match self {
            Outcome::WindowRefused => Some(Fault::WindowRefused),
            Outcome::SurfaceRefused => Some(Fault::SurfaceRefused),
            Outcome::AdapterUnavailable => Some(Fault::AdapterUnavailable),
            Outcome::DeviceRefused => Some(Fault::DeviceRefused),
            Outcome::ConfigUnavailable => Some(Fault::ConfigUnavailable),
            Outcome::ImageUnavailable => Some(Fault::ImageUnavailable),
            _ => None,
        }
    }

    /// What [`Outcome::step`] returns.
    pub open spec fn spec_step(&self) -> Option<Step> {
        match self {
            Outcome::WindowCreated | Outcome::WindowRefused => Some(Step::Window),
            Outcome::SurfaceCreated | Outcome::SurfaceRefused => Some(Step::Surface),
            Outcome::AdapterSelected | Outcome::AdapterUnavailable => Some(Step::Adapter),
            Outcome::DeviceGranted | Outcome::DeviceRefused => Some(Step::Device),
            Outcome::ConfigDerived(_) | Outcome::ConfigUnavailable => Some(Step::Config),
            Outcome::ImageUnavailable => None,
        }
    }

    /// What [`Outcome::fault`] returns.
    pub open spec fn spec_fault(&self) -> Option<Fault> {
        match self {
            Outcome::WindowRefused => Some(Fault::WindowRefused),
            Outcome::SurfaceRefused => Some(Fault::SurfaceRefused),
            Outcome::AdapterUnavailable => Some(Fault::AdapterUnavailable),
            Outcome::DeviceRefused => Some(Fault::DeviceRefused),
            Outcome::ConfigUnavailable => Some(Fault::ConfigUnavailable),
            Outcome::ImageUnavailable => Some(Fault::ImageUnavailable),
            _ => None,
        }
    }
}

} // verus!
