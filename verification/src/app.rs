//! The controller itself.

use std::collections::VecDeque;
use vstd::prelude::*;
use crate::command::{
    adapter_request, device_request, frame, render_pass, AdapterRequest, Command, DeviceRequest,
    DrawRequest, Fault, LimitsBase, LoadOp, MemoryHints, Outcome, PassRequest, PipelineRequest,
    PowerPreference, Rgba, Step, StoreOp,
};
use crate::event::{DeviceEvent, PhysicalSize, WindowEvent, WindowId};
use crate::model::{AppState, Halt, Phase};
use crate::surface::SurfaceConfig;

verus! {

/// The application: its lifecycle, the resources that its host holds for
/// it, and the events and the resize that wait for their turn.
///
/// Every value of the type obeys [`AppState::wf`]. The four entry points
/// [`App::resumed`], [`App::report`], [`App::window_event`] and
/// [`App::device_event`] accept every input in every state; the steps of
/// the resource chain and of a frame state what they depend on as a
/// precondition, and the entry points are proved to call them in order.
pub struct App {
    phase: Phase,
    halt: Option<Halt>,
    unready_events: VecDeque<(WindowId, WindowEvent)>,
    window: bool,
    surface: bool,
    surface_config: Option<SurfaceConfig>,
    adapter: bool,
    device: bool,
    pipeline: bool,
    resize_standby: Option<PhysicalSize>,
}

impl View for App {
    type V = AppState;

    closed spec fn view(&self) -> AppState {
        AppState {
            phase: self.phase,
            halt: self.halt,
            window: self.window,
            surface: self.surface,
            adapter: self.adapter,
            device: self.device,
            surface_config: self.surface_config,
            pipeline: self.pipeline,
            pending_events: self.unready_events@,
            pending_resize: self.resize_standby,
        }
    }
}

impl App {
    /// Every application obeys the invariant of its state.
    #[verifier::type_invariant]
    spec fn inv(&self) -> bool {
        self@.wf()
    }

    /// An application that has not been activated.
    pub fn new() -> (app: App)
        ensures
            app@ == AppState::initial(),
            app@.wf(),
    {
        App {
            phase: Phase::Inactive,
            halt: None,
            unready_events: VecDeque::new(),
            window: false,
            surface: false,
            surface_config: None,
            adapter: false,
            device: false,
            pipeline: false,
            resize_standby: None,
        }
    }

    /// The first step of the chain: the window, with default attributes.
    /// It depends on nothing.
    pub fn init_window(&self) -> (cmd: Command)
        ensures
            cmd == Command::CreateWindow,
    {
        Command::CreateWindow
    }

    /// The second step: the presentation surface. It needs the window, and
    /// so can only be asked for of an application that has one.
    pub fn init_surface(&self) -> (cmd: Command)
        requires
            self@.provides(Step::Surface),
        ensures
            cmd == Command::CreateSurface,
    {
        Command::CreateSurface
    }

    /// The third step: the adapter, which has to be compatible with the
    /// surface. The fastest one is preferred and a software adapter refused.
    pub fn init_adapter(&self) -> (cmd: Command)
        requires
            self@.provides(Step::Adapter),
        ensures
            cmd == Command::RequestAdapter(adapter_request()),
    {
        Command::RequestAdapter(
            AdapterRequest {
                power_preference: PowerPreference::HighPerformance,
                force_fallback_adapter: false,
                compatible_surface: true,
            },
        )
    }

    /// The fourth step: the device and its queue, from the adapter, with no
    /// optional feature and the most portable limits at the adapter's own
    /// texture dimensions.
    pub fn init_device(&self) -> (cmd: Command)
        requires
            self@.provides(Step::Device),
        ensures
            cmd == Command::RequestDevice(device_request()),
    {
        Command::RequestDevice(
            DeviceRequest {
                required_features: 0,
                limits: LimitsBase::DownlevelWebgl2,
                adapter_resolution: true,
                memory_hints: MemoryHints::MemoryUsage,
            },
        )
    }

    /// The fifth step: the surface configuration, derived from the window's
    /// pixel size, the surface and the adapter.
    pub fn init_config(&self) -> (cmd: Command)
        requires
            self@.provides(Step::Config),
        ensures
            cmd == Command::DeriveConfig,
    {
        Command::DeriveConfig
    }

    /// The sixth step: the render pipeline, bound to the colour format of
    /// the configuration. It needs the adapter and the configuration.
    pub fn init_pipeline(&self) -> (cmd: Command)
        requires
            self@.provides(Step::Pipeline),
        ensures
            cmd == Command::BuildPipeline(
                PipelineRequest { format: self@.surface_config->Some_0.format },
            ),
    {
        let config = self.surface_config.unwrap();
        Command::BuildPipeline(PipelineRequest { format: config.format })
    }

    /// The last step: the configuration is applied to the surface. It needs
    /// the surface, the device and the configuration.
    pub fn configure_surface(&self) -> (cmd: Command)
        requires
            self@.provides(Step::Configure),
        ensures
            cmd == Command::ConfigureSurface(self@.surface_config->Some_0),
    {
        Command::ConfigureSurface(self.surface_config.unwrap())
    }

    /// The one render pass of a frame: clear to the background and keep
    /// the result, bind the pipeline, draw the triangle. It needs the
    /// pipeline.
    pub fn perform_render_pass(&self) -> (cmds: Vec<Command>)
        requires
            self@.pipeline,
        ensures
            cmds@ == render_pass(),
    {
        let background = Rgba { red: 0, green: 0, blue: 0, alpha: 255 };
        let pass = PassRequest { load: LoadOp::Clear(background), store: StoreOp::Store };
        let draw = DrawRequest { first_vertex: 0, end_vertex: 3, first_instance: 0, end_instance: 1 };
        let cmds = vec![
            Command::BeginPass(pass),
            Command::BindPipeline,
            Command::Draw(draw),
            Command::EndPass,
        ];
        assert(cmds@ =~= render_pass());
        cmds
    }

    /// One frame: acquire the image, record the pass, submit, present. It
    /// needs the surface, the device and the pipeline.
    pub fn on_redraw(&self) -> (cmds: Vec<Command>)
        requires
            self@.surface,
            self@.device,
            self@.pipeline,
        ensures
            cmds@ == frame(),
    {
        let mut cmds = vec![Command::AcquireImage, Command::BeginEncoding];
        let mut pass = self.perform_render_pass();
        cmds.append(&mut pass);
        cmds.push(Command::Submit);
        cmds.push(Command::Present);
        assert(cmds@ =~= frame());
        cmds
    }

    /// Gives the configuration the new pixel size and has it applied to the
    /// surface.
    pub fn on_resize(&mut self, size: PhysicalSize) -> (cmd: Command)
        requires
            old(self)@.provides(Step::Configure),
        ensures
            final(self)@.wf(),
            final(self)@ == (AppState {
                surface_config: Some(old(self)@.surface_config->Some_0.resized(size)),
                ..old(self)@
            }),
            cmd == Command::ConfigureSurface(old(self)@.surface_config->Some_0.resized(size)),
    {
        proof {
            use_type_invariant(&*self);
        }
        let mut config = self.surface_config.unwrap();
        config.resize(size);
        self.surface_config = Some(config);
        self.configure_surface()
    }

    /// Puts an event behind those that are held back.
    fn hold(&mut self, wid: WindowId, event: WindowEvent)
        requires
            !old(self)@.ready(),
        ensures
            final(self)@ == (AppState {
                pending_events: old(self)@.pending_events.push((wid, event)),
                ..old(self)@
            }),
    {
        proof {
            use_type_invariant(&*self);
        }
        // The queue grows outside the application, which stays whole should
        // the push fail to allocate.
        let mut queue: VecDeque<(WindowId, WindowEvent)> = VecDeque::new();
        core::mem::swap(&mut self.unready_events, &mut queue);
        queue.push_back((wid, event));
        core::mem::swap(&mut self.unready_events, &mut queue);
    }

    /// Stops for good on a fatal condition.
    fn fail(&mut self, fault: Fault) -> (cmds: Vec<Command>)
        requires
            !old(self)@.halted(),
        ensures
            final(self)@.wf(),
            final(self)@ == old(self)@.fail(fault).state,
            cmds@ == old(self)@.fail(fault).commands,
    {
        proof {
            use_type_invariant(&*self);
        }
        self.halt = Some(Halt::Failed(fault));
        let cmds = vec![Command::Abort(fault)];
        assert(cmds@ =~= old(self)@.fail(fault).commands);
        cmds
    }

    /// Whether the chain waits for the outcome of this step.
    pub fn awaits(&self, step: Step) -> (b: bool)
        ensures
            b == self@.awaits(step),
    {
        let running = match self.phase {
            Phase::Activating => self.halt.is_none(),
            _ => false,
        };
        running && match step {
            Step::Window => !self.window,
            Step::Surface => self.window && !self.surface,
            Step::Adapter => self.surface && !self.adapter,
            Step::Device => self.adapter && !self.device,
            Step::Config => self.device && self.surface_config.is_none(),
            Step::Pipeline => false,
            Step::Configure => false,
        }
    }

    /// The activation signal. The first one starts the resource chain with
    /// the window; every later one changes nothing and asks for nothing.
    pub fn resumed(&mut self) -> (cmds: Vec<Command>)
        ensures
            final(self)@.wf(),
            final(self)@ == old(self)@.resumed().state,
            cmds@ == old(self)@.resumed().commands,
    {
        proof {
            use_type_invariant(&*self);
        }
        if self.halt.is_some() {
            return Vec::new();
        }
        match self.phase {
            Phase::Inactive => {
                self.phase = Phase::Activating;
                let cmds = vec![self.init_window()];
                assert(cmds@ =~= old(self)@.resumed().commands);
                cmds
            },
            _ => Vec::new(),
        }
    }

    /// Ends the chain once the configuration is known: builds the pipeline,
    /// configures the surface, makes the application ready and delivers the
    /// events that were held back, oldest first.
    fn complete(&mut self, config: SurfaceConfig) -> (cmds: Vec<Command>)
        requires
            old(self)@.awaits(Step::Config),
        ensures
            final(self)@.wf(),
            final(self)@ == old(self)@.complete(config).state,
            cmds@ == old(self)@.complete(config).commands,
    {
        proof {
            use_type_invariant(&*self);
        }
        let ghost target = self@.complete(config);
        let mut queue: VecDeque<(WindowId, WindowEvent)> = VecDeque::new();
        core::mem::swap(&mut self.unready_events, &mut queue);
        *self = App {
            phase: Phase::Ready,
            halt: self.halt,
            unready_events: VecDeque::new(),
            window: self.window,
            surface: self.surface,
            surface_config: Some(config),
            adapter: self.adapter,
            device: self.device,
            pipeline: true,
            resize_standby: self.resize_standby,
        };
        let build = self.init_pipeline();
        let configure = self.configure_surface();
        let mut cmds = vec![build, configure];
        assert(cmds@ + self@.deliver(queue@).commands =~= target.commands);
        loop
            invariant
                self@.deliver(queue@).state == target.state,
                cmds@ + self@.deliver(queue@).commands == target.commands,
            ensures
                queue@.len() == 0,
            decreases queue@.len(),
        {
            let ghost before = self@;
            let ghost waiting = queue@;
            let ghost sent = cmds@;
            match queue.pop_front() {
                None => {
                    break ;
                },
                Some(next) => {
                    let (wid, event) = next;
                    let mut more = self.window_event(wid, event);
                    cmds.append(&mut more);
                    proof {
                        assert(queue@ =~= waiting.drop_first());
                        assert(cmds@ + self@.deliver(queue@).commands =~= sent + before.deliver(
                            waiting,
                        ).commands);
                    }
                },
            }
        }
        assert(cmds@ =~= target.commands);
        proof {
            use_type_invariant(&*self);
        }
        cmds
    }

    /// Records the success of the step that the chain waits for and asks
    /// for what follows it.
    fn proceed(&mut self, outcome: Outcome) -> (cmds: Vec<Command>)
        requires
            outcome.step() matches Some(step) && old(self)@.awaits(step),
            outcome.fault() is None,
        ensures
            final(self)@.wf(),
            final(self)@ == old(self)@.proceed(outcome).state,
            cmds@ == old(self)@.proceed(outcome).commands,
    {
        proof {
            use_type_invariant(&*self);
        }
        let cmds = match outcome {
            Outcome::WindowCreated => {
                self.window = true;
                vec![self.init_surface()]
            },
            Outcome::SurfaceCreated => {
                self.surface = true;
                vec![self.init_adapter()]
            },
            Outcome::AdapterSelected => {
                self.adapter = true;
                vec![self.init_device()]
            },
            Outcome::DeviceGranted => {
                self.device = true;
                vec![self.init_config()]
            },
            Outcome::ConfigDerived(config) => self.complete(config),
            _ => Vec::new(),
        };
        assert(cmds@ =~= old(self)@.proceed(outcome).commands);
        cmds
    }

    /// The outcome of a fallible command.
    ///
    /// A success of the step that the chain waits for records the resource
    /// and asks for the next step; the last one makes the application ready
    /// and delivers the events that were held back. Every failure, and every
    /// outcome of a step that the chain does not wait for, stops the
    /// controller with `Abort`. Once halted, nothing happens.
    pub fn report(&mut self, outcome: Outcome) -> (cmds: Vec<Command>)
        ensures
            final(self)@.wf(),
            final(self)@ == old(self)@.report(outcome).state,
            cmds@ == old(self)@.report(outcome).commands,
    {
        proof {
            use_type_invariant(&*self);
        }
        if self.halt.is_some() {
            return Vec::new();
        }
        match outcome.step() {
            Some(step) => {
                if !self.awaits(step) {
                    return self.fail(Fault::OutOfSequence(step));
                }
            },
            None => {},
        }
        match outcome.fault() {
            Some(fault) => self.fail(fault),
            None => self.proceed(outcome),
        }
    }

    /// A window event.
    ///
    /// Before readiness the event is held back. After it, close and destroy
    /// end the session with `Exit`; a resize becomes the one pending resize;
    /// a redraw request renders a frame, and where a resize is pending it
    /// first gives the surface the new size and afterwards asks for another
    /// redraw; pointer motion, wheel and pressure are dropped; every other
    /// event is traced. Once halted, nothing happens.
    pub fn window_event(&mut self, wid: WindowId, event: WindowEvent) -> (cmds: Vec<Command>)
        ensures
            final(self)@.wf(),
            final(self)@ == old(self)@.window_event(wid, event).state,
            cmds@ == old(self)@.window_event(wid, event).commands,
    {
        proof {
            use_type_invariant(&*self);
        }
        if self.halt.is_some() {
            return Vec::new();
        }
        if !self.is_ready() {
            self.hold(wid, event);
            return Vec::new();
        }
        let cmds = match event {
            WindowEvent::CloseRequested | WindowEvent::Destroyed => {
                self.halt = Some(Halt::Closed);
                vec![Command::Exit]
            },
            WindowEvent::CursorMoved
            | WindowEvent::TouchpadPressure
            | WindowEvent::MouseWheel => Vec::new(),
            WindowEvent::Resized(size) => {
                self.resize_standby = Some(size);
                Vec::new()
            },
            WindowEvent::RedrawRequested => {
                match self.resize_standby {
                    Some(size) => {
                        self.resize_standby = None;
                        let mut cmds = vec![self.on_resize(size)];
                        let mut frame = self.on_redraw();
                        cmds.append(&mut frame);
                        cmds.push(Command::RequestRedraw);
                        cmds
                    },
                    None => self.on_redraw(),
                }
            },
            WindowEvent::Other(detail) => vec![Command::TraceWindowEvent(detail)],
        };
        assert(cmds@ =~= old(self)@.window_event(wid, event).commands);
        cmds
    }

    /// A device event: pointer motion is dropped, every other event is
    /// traced. Once halted, nothing happens.
    pub fn device_event(&mut self, event: DeviceEvent) -> (cmds: Vec<Command>)
        ensures
            final(self)@.wf(),
            final(self)@ == old(self)@.device_event(event).state,
            cmds@ == old(self)@.device_event(event).commands,
    {
        proof {
            use_type_invariant(&*self);
        }
        if self.halt.is_some() {
            return Vec::new();
        }
        let cmds = match event {
            DeviceEvent::MouseMotion => Vec::new(),
            DeviceEvent::Other(detail) => vec![Command::TraceDeviceEvent(detail)],
        };
        assert(cmds@ =~= old(self)@.device_event(event).commands);
        cmds
    }

    /// Whether an activation signal has come.
    pub fn is_active(&self) -> (b: bool)
        ensures
            b == self@.active(),
    {
        match self.phase {
            Phase::Inactive => false,
            _ => true,
        }
    }

    /// Whether the resource chain has completed.
    pub fn is_ready(&self) -> (b: bool)
        ensures
            b == self@.ready(),
    {
        match self.phase {
            Phase::Ready => true,
            _ => false,
        }
    }

    /// Whether the controller has stopped for good.
    pub fn is_halted(&self) -> (b: bool)
        ensures
            b == self@.halted(),
    {
        self.halt.is_some()
    }

    /// Where the application stands between start and readiness.
    pub fn phase(&self) -> (phase: Phase)
        ensures
            phase == self@.phase,
    {
        self.phase
    }

    /// Why the controller has stopped, if it has.
    pub fn halt(&self) -> (halt: Option<Halt>)
        ensures
            halt == self@.halt,
    {
        self.halt
    }

    /// Whether the resource that the step creates is there.
    pub fn has(&self, step: Step) -> (b: bool)
        ensures
            b == self@.has(step),
    {
        match step {
            Step::Window => self.window,
            Step::Surface => self.surface,
            Step::Adapter => self.adapter,
            Step::Device => self.device,
            Step::Config => self.surface_config.is_some(),
            Step::Pipeline => self.pipeline,
            Step::Configure => self.is_ready(),
        }
    }

    /// The configuration of the surface, once it has been derived.
    pub fn surface_config(&self) -> (config: Option<SurfaceConfig>)
        ensures
            config == self@.surface_config,
    {
        self.surface_config
    }

    /// The resize that waits for the next redraw request.
    pub fn pending_resize(&self) -> (size: Option<PhysicalSize>)
        ensures
            size == self@.pending_resize,
    {
        self.resize_standby
    }

    /// How many events are held back.
    pub fn pending_events(&self) -> (count: usize)
        ensures
            count == self@.pending_events.len(),
    {
        self.unready_events.len()
    }
}

impl Default for App {
    /// The same as [`App::new`].
    fn default() -> (app: App)
        ensures
            app@ == AppState::initial(),
            app@.wf(),
    {
        App::new()
    }
}

} // verus!
