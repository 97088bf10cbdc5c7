//! The controller as a state machine over mathematical values.
//!
//! [`AppState`] is what an [`crate::app::App`] stands for; each entry point
//! of the controller is a function from a state and an input to the next
//! state and the commands for the host. The executable code is proved to
//! compute exactly these functions, and the laws of the controller are
//! proved about them.

use vstd::prelude::*;
use crate::command::{
    adapter_request, device_request, frame, Command, Fault, Outcome, PipelineRequest, Step,
};
use crate::event::{DeviceEvent, PhysicalSize, WindowEvent, WindowId};
use crate::surface::SurfaceConfig;

verus! {

/// Where the application stands between start and readiness.
#[derive(Clone, Copy, Debug, PartialEq, Eq, Hash, Structural)]
pub enum Phase {
    /// No activation signal has come yet.
    Inactive,
    /// The resource chain is running.
    Activating,
    /// Every resource exists; events are dispatched as they come.
    Ready,
}

/// Why the controller has stopped for good.
#[derive(Clone, Copy, Debug, PartialEq, Eq, Hash, Structural)]
pub enum Halt {
    /// A close or destroy event was dispatched.
    Closed,
    /// A fatal condition was met.
    Failed(Fault),
}

/// A window event together with the window it came from.
pub type Tagged = (WindowId, WindowEvent);

/// The state of the controller.
pub struct AppState {
    pub phase: Phase,
    pub halt: Option<Halt>,
    pub window: bool,
    pub surface: bool,
    pub adapter: bool,
    pub device: bool,
    pub surface_config: Option<SurfaceConfig>,
    pub pipeline: bool,
    /// Events that came before readiness, oldest first.
    pub pending_events: Seq<Tagged>,
    /// The latest resize that has not reached the surface yet.
    pub pending_resize: Option<PhysicalSize>,
}

/// What the controller does on one input: its next state, and the commands
/// that the host performs in order.
pub struct Reaction {
    pub state: AppState,
    pub commands: Seq<Command>,
}

/// An input of the controller.
pub enum Input {
    /// The activation signal.
    Resumed,
    /// The outcome of a fallible command.
    Report(Outcome),
    Window(WindowId, WindowEvent),
    Device(DeviceEvent),
}

impl AppState {
    /// The state of a new application.
    pub open spec fn initial() -> AppState {
        AppState {
            phase: Phase::Inactive,
            halt: None,
            window: false,
            surface: false,
            adapter: false,
            device: false,
            surface_config: None,
            pipeline: false,
            pending_events: Seq::empty(),
            pending_resize: None,
        }
    }

    /// Set by the first activation signal and never reset.
    pub open spec fn active(self) -> bool {
        !(self.phase is Inactive)
    }

    pub open spec fn ready(self) -> bool {
        self.phase is Ready
    }

    pub open spec fn halted(self) -> bool {
        self.halt is Some
    }

    /// Whether the resource that the step creates is there.
    pub open spec fn has(self, step: Step) -> bool {
        match step {
            Step::Window => self.window,
            Step::Surface => self.surface,
            Step::Adapter => self.adapter,
            Step::Device => self.device,
            Step::Config => self.surface_config is Some,
            Step::Pipeline => self.pipeline,
            Step::Configure => self.ready(),
        }
    }

    /// Whether everything is there that the step depends on.
    pub open spec fn provides(self, step: Step) -> bool {
        match step {
            Step::Window => true,
            Step::Surface => self.window,
            Step::Adapter => self.surface,
            Step::Device => self.adapter,
            Step::Config => self.window && self.surface && self.adapter,
            Step::Pipeline => self.adapter && self.surface_config is Some,
            Step::Configure => self.surface && self.device && self.surface_config is Some,
        }
    }

    /// The invariant of the controller.
    ///
    /// The resources exist in chain order, all of them exactly when the
    /// application is ready; events are held back only before readiness, and
    /// a resize or a close only after it.
    pub open spec fn wf(self) -> bool {
        &&& self.window ==> self.active()
        &&& self.surface ==> self.window
        &&& self.adapter ==> self.surface
        &&& self.device ==> self.adapter
        &&& self.surface_config is Some ==> self.device
        &&& self.pipeline <==> self.surface_config is Some
        &&& self.ready() <==> self.pipeline
        &&& self.ready() ==> self.pending_events.len() == 0
        &&& self.pending_resize is Some ==> self.ready()
        &&& self.halt == Some(Halt::Closed) ==> self.ready()
    }

    /// Whether the outcome of the step is the one that the chain waits for:
    /// the chain is running, the step before it is done, and the step
    /// itself is not.
    pub open spec fn awaits(self, step: Step) -> bool {
        &&& self.phase is Activating
        &&& !self.halted()
        &&& match step {
            Step::Window => !self.window,
            Step::Surface => self.window && !self.surface,
            Step::Adapter => self.surface && !self.adapter,
            Step::Device => self.adapter && !self.device,
            Step::Config => self.device && self.surface_config is None,
            Step::Pipeline | Step::Configure => false,
        }
    }

    /// Stops for good on a fatal condition.
    pub open spec fn fail(self, fault: Fault) -> Reaction {
        Reaction {
            state: AppState { halt: Some(Halt::Failed(fault)), ..self },
            commands: seq![Command::Abort(fault)],
        }
    }

    /// Does nothing.
    pub open spec fn idle(self) -> Reaction {
        Reaction { state: self, commands: Seq::empty() }
    }

    /// The activation signal: the first one starts the resource chain, every
    /// later one is ignored.
    pub open spec fn resumed(self) -> Reaction {
        if self.halted() || self.active() {
            self.idle()
        } else {
            Reaction {
                state: AppState { phase: Phase::Activating, ..self },
                commands: seq![Command::CreateWindow],
            }
        }
    }

    /// The dispatch policy, for an application that is ready and running.
    pub open spec fn dispatch(self, wid: WindowId, event: WindowEvent) -> Reaction {
        match event {
            WindowEvent::CloseRequested | WindowEvent::Destroyed => Reaction {
                state: AppState { halt: Some(Halt::Closed), ..self },
                commands: seq![Command::Exit],
            },
            WindowEvent::CursorMoved
            | WindowEvent::TouchpadPressure
            | WindowEvent::MouseWheel => self.idle(),
            WindowEvent::Resized(size) => Reaction {
                state: AppState { pending_resize: Some(size), ..self },
                commands: Seq::empty(),
            },
            WindowEvent::RedrawRequested => match (self.pending_resize, self.surface_config) {
                (Some(size), Some(config)) => Reaction {
                    state: AppState {
                        surface_config: Some(config.resized(size)),
                        pending_resize: None,
                        ..self
                    },
                    commands: seq![Command::ConfigureSurface(config.resized(size))] + frame()
                        + seq![Command::RequestRedraw],
                },
                _ => Reaction { state: self, commands: frame() },
            },
            WindowEvent::Other(detail) => Reaction {
                state: self,
                commands: seq![Command::TraceWindowEvent(detail)],
            },
        }
    }

    /// A window event: ignored once halted, held back before readiness,
    /// dispatched after it.
    pub open spec fn window_event(self, wid: WindowId, event: WindowEvent) -> Reaction {
        if self.halted() {
            self.idle()
        } else if !self.ready() {
            Reaction {
                state: AppState { pending_events: self.pending_events.push((wid, event)), ..self },
                commands: Seq::empty(),
            }
        } else {
            self.dispatch(wid, event)
        }
    }

    /// A device event: traced unless it is pointer motion.
    pub open spec fn device_event(self, event: DeviceEvent) -> Reaction {
        if self.halted() {
            self.idle()
        } else {
            match event {
                DeviceEvent::MouseMotion => self.idle(),
                DeviceEvent::Other(detail) => Reaction {
                    state: self,
                    commands: seq![Command::TraceDeviceEvent(detail)],
                },
            }
        }
    }

    /// Window events delivered one after the other, oldest first.
    pub open spec fn deliver(self, events: Seq<Tagged>) -> Reaction
        decreases events.len(),
    {
        if events.len() == 0 {
            self.idle()
        } else {
            let first = self.window_event(events[0].0, events[0].1);
            let rest = first.state.deliver(events.drop_first());
            Reaction { state: rest.state, commands: first.commands + rest.commands }
        }
    }

    /// The end of the resource chain: with the configuration known, the
    /// pipeline is built, the surface configured, the application ready, and
    /// the events held back are delivered in the order in which they came.
    pub open spec fn complete(self, config: SurfaceConfig) -> Reaction {
        let ready = AppState {
            phase: Phase::Ready,
            surface_config: Some(config),
            pipeline: true,
            pending_events: Seq::empty(),
            ..self
        };
        let replay = ready.deliver(self.pending_events);
        Reaction {
            state: replay.state,
            commands: seq![
                Command::BuildPipeline(PipelineRequest { format: config.format }),
                Command::ConfigureSurface(config),
            ] + replay.commands,
        }
    }

    /// A successful outcome of the step that the chain waits for: the
    /// resource is there, and the next step is asked for.
    pub open spec fn proceed(self, outcome: Outcome) -> Reaction {
        match outcome {
            Outcome::WindowCreated => Reaction {
                state: AppState { window: true, ..self },
                commands: seq![Command::CreateSurface],
            },
            Outcome::SurfaceCreated => Reaction {
                state: AppState { surface: true, ..self },
                commands: seq![Command::RequestAdapter(adapter_request())],
            },
            Outcome::AdapterSelected => Reaction {
                state: AppState { adapter: true, ..self },
                commands: seq![Command::RequestDevice(device_request())],
            },
            Outcome::DeviceGranted => Reaction {
                state: AppState { device: true, ..self },
                commands: seq![Command::DeriveConfig],
            },
            Outcome::ConfigDerived(config) => self.complete(config),
            _ => self.idle(),
        }
    }

    /// The outcome of a fallible command. The outcome of a step that the
    /// chain does not wait for is fatal, and so is every failure.
    pub open spec fn report(self, outcome: Outcome) -> Reaction {
        if self.halted() {
            self.idle()
        } else if outcome.step() is Some && !self.awaits(outcome.step()->Some_0) {
            self.fail(Fault::OutOfSequence(outcome.step()->Some_0))
        } else if outcome.fault() is Some {
            self.fail(outcome.fault()->Some_0)
        } else {
            self.proceed(outcome)
        }
    }

    /// One input of any kind.
    pub open spec fn step(self, input: Input) -> Reaction {
        match input {
            Input::Resumed => self.resumed(),
            Input::Report(outcome) => self.report(outcome),
            Input::Window(wid, event) => self.window_event(wid, event),
            Input::Device(event) => self.device_event(event),
        }
    }

    /// A history of inputs, oldest first.
    pub open spec fn run(self, inputs: Seq<Input>) -> Reaction
        decreases inputs.len(),
    {
        if inputs.len() == 0 {
            self.idle()
        } else {
            let first = self.step(inputs[0]);
            let rest = first.state.run(inputs.drop_first());
            Reaction { state: rest.state, commands: first.commands + rest.commands }
        }
    }
}

} // verus!
