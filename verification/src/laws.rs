//! What holds of every history of the controller.
//!
//! The laws are stated over [`AppState`] and its transition functions, which
//! the methods of [`crate::app::App`] are proved to compute.

use vstd::prelude::*;
use crate::command::{frame, pass_request, triangle, Command, Outcome, PipelineRequest, Step};
use crate::event::{WindowEvent, WindowId};
use crate::model::{AppState, Halt, Input, Phase, Reaction, Tagged};
use crate::surface::SurfaceConfig;

verus! {

impl Command {
    /// The step of the resource chain whose resource the command creates.
    /// Configuring the surface creates nothing: it happens again on resize.
    pub open spec fn creates(self) -> Option<Step> {
        match self {
            Command::CreateWindow => Some(Step::Window),
            Command::CreateSurface => Some(Step::Surface),
            Command::RequestAdapter(_) => Some(Step::Adapter),
            Command::RequestDevice(_) => Some(Step::Device),
            Command::DeriveConfig => Some(Step::Config),
            Command::BuildPipeline(_) => Some(Step::Pipeline),
            _ => None,
        }
    }
}

impl AppState {
    /// Whether the resource of the step has been asked for: the window on
    /// activation, every later one when the step before it succeeded.
    pub open spec fn started(self, step: Step) -> bool {
        match step {
            Step::Window => self.active(),
            Step::Surface => self.window,
            Step::Adapter => self.surface,
            Step::Device => self.adapter,
            Step::Config => self.device,
            Step::Pipeline => self.pipeline,
            Step::Configure => self.ready(),
        }
    }

    /// Whether a close or destroy event has been dispatched.
    pub open spec fn closed(self) -> bool {
        self.halt == Some(Halt::Closed)
    }
}

/// One if the condition holds, else zero.
pub open spec fn tally(condition: bool) -> nat {
    if condition {
        1
    } else {
        0
    }
}

/// How many of the commands are wanted.
pub open spec fn count(commands: Seq<Command>, wanted: spec_fn(Command) -> bool) -> nat
    decreases commands.len(),
{
    if commands.len() == 0 {
        0
    } else {
        count(commands.drop_last(), wanted) + tally(wanted(commands.last()))
    }
}

/// The commands that ask for the resource of the step.
pub open spec fn creating(step: Step) -> spec_fn(Command) -> bool {
    |command: Command| command.creates() == Some(step)
}

/// The commands that tell the event loop to exit.
pub open spec fn exiting() -> spec_fn(Command) -> bool {
    |command: Command| command is Exit
}

proof fn lemma_count_concat(a: Seq<Command>, b: Seq<Command>, wanted: spec_fn(Command) -> bool)
    ensures
        count(a + b, wanted) == count(a, wanted) + count(b, wanted),
    decreases b.len(),
{
    if b.len() == 0 {
        assert(a + b =~= a);
    } else {
        assert((a + b).drop_last() =~= a + b.drop_last());
        assert((a + b).last() == b.last());
        lemma_count_concat(a, b.drop_last(), wanted);
    }
}

proof fn lemma_count_none(commands: Seq<Command>, wanted: spec_fn(Command) -> bool)
    requires
        forall|i: int| 0 <= i < commands.len() ==> !wanted(#[trigger] commands[i]),
    ensures
        count(commands, wanted) == 0,
    decreases commands.len(),
{
    if commands.len() > 0 {
        lemma_count_none(commands.drop_last(), wanted);
    }
}

proof fn lemma_count_one(command: Command, wanted: spec_fn(Command) -> bool)
    ensures
        count(seq![command], wanted) == tally(wanted(command)),
{
    assert(seq![command].drop_last() =~= Seq::<Command>::empty());
    assert(seq![command].last() == command);
    assert(count(Seq::<Command>::empty(), wanted) == 0);
}

/// A frame is one cycle: the image is acquired, the pass is recorded with
/// its one draw, the recording is submitted, the image is presented.
pub proof fn lemma_frame_is_one_cycle()
    ensures
        frame() == seq![
            Command::AcquireImage,
            Command::BeginEncoding,
            Command::BeginPass(pass_request()),
            Command::BindPipeline,
            Command::Draw(triangle()),
            Command::EndPass,
            Command::Submit,
            Command::Present,
        ],
{
    assert(frame() =~= seq![
        Command::AcquireImage,
        Command::BeginEncoding,
        Command::BeginPass(pass_request()),
        Command::BindPipeline,
        Command::Draw(triangle()),
        Command::EndPass,
        Command::Submit,
        Command::Present,
    ]);
}

/// Whether the predicate picks out only commands that create a resource or
/// tell the event loop to exit.
spec fn counts_milestones(wanted: spec_fn(Command) -> bool) -> bool {
    forall|command: Command| #[trigger]
        wanted(command) ==> command.creates() is Some || command is Exit
}

proof fn lemma_window_event_counts(
    s: AppState,
    wid: WindowId,
    event: WindowEvent,
    wanted: spec_fn(Command) -> bool,
)
    requires
        s.wf(),
        counts_milestones(wanted),
    ensures
        count(s.window_event(wid, event).commands, wanted) == tally(
            wanted(Command::Exit) && !s.closed() && s.window_event(wid, event).state.closed(),
        ),
{
    let r = s.window_event(wid, event);
    lemma_frame_is_one_cycle();
    if s.halted() || !s.ready() {
        lemma_count_none(r.commands, wanted);
    } else {
        match event {
            WindowEvent::RedrawRequested => {
                if s.pending_resize is Some {
                    let config = s.surface_config->Some_0.resized(s.pending_resize->Some_0);
                    lemma_count_one(Command::ConfigureSurface(config), wanted);
                    lemma_count_one(Command::RequestRedraw, wanted);
                    lemma_count_none(frame(), wanted);
                    lemma_count_concat(seq![Command::ConfigureSurface(config)], frame(), wanted);
                    lemma_count_concat(
                        seq![Command::ConfigureSurface(config)] + frame(),
                        seq![Command::RequestRedraw],
                        wanted,
                    );
                } else {
                    lemma_count_none(frame(), wanted);
                }
            },
            WindowEvent::CloseRequested | WindowEvent::Destroyed => {
                lemma_count_one(Command::Exit, wanted);
            },
            WindowEvent::Other(detail) => {
                lemma_count_one(Command::TraceWindowEvent(detail), wanted);
            },
            _ => {
                lemma_count_none(r.commands, wanted);
            },
        }
    }
}

/// A window event keeps the invariant and every resource, asks for no
/// resource and starts no step of the chain; it tells the event loop to
/// exit exactly if it closes the session.
pub proof fn lemma_window_event_keeps(s: AppState, wid: WindowId, event: WindowEvent, step: Step)
    requires
        s.wf(),
    ensures
        s.window_event(wid, event).state.wf(),
        s.window_event(wid, event).state.has(step) == s.has(step),
        s.window_event(wid, event).state.started(step) == s.started(step),
        s.halted() ==> s.window_event(wid, event).state.halt == s.halt,
        count(s.window_event(wid, event).commands, creating(step)) == 0,
        count(s.window_event(wid, event).commands, exiting()) + tally(s.closed()) == tally(
            s.window_event(wid, event).state.closed(),
        ),
{
    lemma_window_event_counts(s, wid, event, creating(step));
    lemma_window_event_counts(s, wid, event, exiting());
}

/// What holds of one window event holds of any number of them.
pub proof fn lemma_deliver_keeps(s: AppState, events: Seq<Tagged>, step: Step)
    requires
        s.wf(),
    ensures
        s.deliver(events).state.wf(),
        s.deliver(events).state.has(step) == s.has(step),
        s.deliver(events).state.started(step) == s.started(step),
        s.halted() ==> s.deliver(events).state.halt == s.halt,
        count(s.deliver(events).commands, creating(step)) == 0,
        count(s.deliver(events).commands, exiting()) + tally(s.closed()) == tally(
            s.deliver(events).state.closed(),
        ),
    decreases events.len(),
{
    if events.len() == 0 {
        lemma_count_none(s.deliver(events).commands, creating(step));
        lemma_count_none(s.deliver(events).commands, exiting());
    } else {
        let first = s.window_event(events[0].0, events[0].1);
        let rest = first.state.deliver(events.drop_first());
        lemma_window_event_keeps(s, events[0].0, events[0].1, step);
        lemma_deliver_keeps(first.state, events.drop_first(), step);
        lemma_count_concat(first.commands, rest.commands, creating(step));
        lemma_count_concat(first.commands, rest.commands, exiting());
    }
}

proof fn lemma_complete_counts(
    s: AppState,
    config: SurfaceConfig,
    wanted: spec_fn(Command) -> bool,
)
    ensures
        ({
            let ready = AppState {
                phase: Phase::Ready,
                surface_config: Some(config),
                pipeline: true,
                pending_events: Seq::empty(),
                ..s
            };
            count(s.complete(config).commands, wanted) == tally(
                wanted(Command::BuildPipeline(PipelineRequest { format: config.format })),
            ) + tally(wanted(Command::ConfigureSurface(config))) + count(
                ready.deliver(s.pending_events).commands,
                wanted,
            )
        }),
{
    let build = Command::BuildPipeline(PipelineRequest { format: config.format });
    let configure = Command::ConfigureSurface(config);
    let ready = AppState {
        phase: Phase::Ready,
        surface_config: Some(config),
        pipeline: true,
        pending_events: Seq::empty(),
        ..s
    };
    lemma_count_one(build, wanted);
    lemma_count_one(configure, wanted);
    lemma_count_concat(seq![build], seq![configure], wanted);
    assert(seq![build, configure] =~= seq![build] + seq![configure]);
    lemma_count_concat(seq![build, configure], ready.deliver(s.pending_events).commands, wanted);
}

/// Every input keeps the invariant, what exists and what has halted the
/// controller. It asks for the resource of a step exactly when it starts
/// the step, and tells the event loop to exit exactly when it closes the
/// session.
pub proof fn lemma_step_keeps(s: AppState, input: Input, step: Step)
    requires
        s.wf(),
    ensures
        s.step(input).state.wf(),
        s.has(step) ==> s.step(input).state.has(step),
        s.started(step) ==> s.step(input).state.started(step),
        s.halted() ==> s.step(input).state.halt == s.halt,
        step != Step::Configure ==> count(s.step(input).commands, creating(step)) + tally(
            s.started(step),
        ) == tally(s.step(input).state.started(step)),
        count(s.step(input).commands, exiting()) + tally(s.closed()) == tally(
            s.step(input).state.closed(),
        ),
{
    let r = s.step(input);
    match input {
        Input::Resumed => {
            if s.halted() || s.active() {
                lemma_count_none(r.commands, creating(step));
                lemma_count_none(r.commands, exiting());
            } else {
                lemma_count_one(Command::CreateWindow, creating(step));
                lemma_count_one(Command::CreateWindow, exiting());
            }
        },
        Input::Window(wid, event) => {
            lemma_window_event_keeps(s, wid, event, step);
        },
        Input::Device(event) => {
            if r.commands.len() > 0 {
                assert(r.commands =~= seq![r.commands[0]]);
                lemma_count_one(r.commands[0], creating(step));
                lemma_count_one(r.commands[0], exiting());
            } else {
                lemma_count_none(r.commands, creating(step));
                lemma_count_none(r.commands, exiting());
            }
        },
        Input::Report(outcome) => {
            if s.halted() {
                lemma_count_none(r.commands, creating(step));
                lemma_count_none(r.commands, exiting());
            } else if outcome.step() is Some && s.awaits(outcome.step()->Some_0)
                && outcome.fault() is None && outcome is ConfigDerived {
                let config = outcome->ConfigDerived_0;
                let ready = AppState {
                    phase: Phase::Ready,
                    surface_config: Some(config),
                    pipeline: true,
                    pending_events: Seq::empty(),
                    ..s
                };
                lemma_deliver_keeps(ready, s.pending_events, step);
                lemma_complete_counts(s, config, creating(step));
                lemma_complete_counts(s, config, exiting());
            } else {
                assert(r.commands =~= seq![r.commands[0]]);
                lemma_count_one(r.commands[0], creating(step));
                lemma_count_one(r.commands[0], exiting());
            }
        },
    }
}

/// What holds of one input holds of every history: the invariant is kept,
/// no resource goes away and a halt is final; the resource of a step is
/// asked for once if the history starts the step and not at all if it does
/// not; the event loop is told to exit once if the history closes the
/// session and not at all if it does not.
pub proof fn lemma_run_keeps(s: AppState, inputs: Seq<Input>, step: Step)
    requires
        s.wf(),
    ensures
        s.run(inputs).state.wf(),
        s.has(step) ==> s.run(inputs).state.has(step),
        s.started(step) ==> s.run(inputs).state.started(step),
        s.halted() ==> s.run(inputs).state.halt == s.halt,
        step != Step::Configure ==> count(s.run(inputs).commands, creating(step)) + tally(
            s.started(step),
        ) == tally(s.run(inputs).state.started(step)),
        count(s.run(inputs).commands, exiting()) + tally(s.closed()) == tally(
            s.run(inputs).state.closed(),
        ),
    decreases inputs.len(),
{
    if inputs.len() == 0 {
        lemma_count_none(s.run(inputs).commands, creating(step));
        lemma_count_none(s.run(inputs).commands, exiting());
    } else {
        let first = s.step(inputs[0]);
        let rest = first.state.run(inputs.drop_first());
        lemma_step_keeps(s, inputs[0], step);
        lemma_run_keeps(first.state, inputs.drop_first(), step);
        lemma_count_concat(first.commands, rest.commands, creating(step));
        lemma_count_concat(first.commands, rest.commands, exiting());
    }
}

/// Whatever happens to a new application, each resource of the chain is
/// asked for at most once, and exactly once if the application has become
/// ready.
pub proof fn lemma_resources_created_once(inputs: Seq<Input>, step: Step)
    requires
        step != Step::Configure,
    ensures
        count(AppState::initial().run(inputs).commands, creating(step)) <= 1,
        AppState::initial().run(inputs).state.ready() ==> count(
            AppState::initial().run(inputs).commands,
            creating(step),
        ) == 1,
{
    lemma_run_keeps(AppState::initial(), inputs, step);
}

/// Whatever happens to a new application, the event loop is told to exit
/// at most once, and exactly once if a close or destroy event has been
/// dispatched.
pub proof fn lemma_exit_signalled_once(inputs: Seq<Input>)
    ensures
        count(AppState::initial().run(inputs).commands, exiting()) == tally(
            AppState::initial().run(inputs).state.closed(),
        ),
{
    lemma_run_keeps(AppState::initial(), inputs, Step::Window);
}

/// Whatever happens to a new application, its state obeys the invariant;
/// so an application that is ready has every resource of the chain and
/// holds no event back.
pub proof fn lemma_ready_has_everything(inputs: Seq<Input>, step: Step)
    ensures
        AppState::initial().run(inputs).state.wf(),
        AppState::initial().run(inputs).state.ready() ==> {
            &&& AppState::initial().run(inputs).state.has(step)
            &&& AppState::initial().run(inputs).state.pending_events.len() == 0
        },
{
    lemma_run_keeps(AppState::initial(), inputs, step);
}

/// An activation signal to an application that is already active changes
/// nothing and asks for nothing, however often it comes.
pub proof fn lemma_activation_is_idempotent(s: AppState)
    requires
        s.active(),
    ensures
        s.resumed() == s.idle(),
{
}

/// Once halted, the controller ignores every input.
pub proof fn lemma_halted_is_final(s: AppState, inputs: Seq<Input>)
    requires
        s.halted(),
    ensures
        s.run(inputs) == s.idle(),
    decreases inputs.len(),
{
    if inputs.len() > 0 {
        assert(s.step(inputs[0]) == s.idle());
        lemma_halted_is_final(s, inputs.drop_first());
        assert(s.run(inputs).commands =~= s.idle().commands);
    }
}

/// After readiness, a close or destroy event gives the event loop its one
/// exit signal, and nothing that comes after it is dispatched.
pub proof fn lemma_close_ends_the_session(
    s: AppState,
    wid: WindowId,
    event: WindowEvent,
    later: Seq<Input>,
)
    requires
        s.ready(),
        !s.halted(),
        event.is_terminal(),
    ensures
        s.run(seq![Input::Window(wid, event)] + later) == (Reaction {
            state: AppState { halt: Some(Halt::Closed), ..s },
            commands: seq![Command::Exit],
        }),
{
    let inputs = seq![Input::Window(wid, event)] + later;
    let closed = AppState { halt: Some(Halt::Closed), ..s };
    assert(inputs[0] == Input::Window(wid, event));
    assert(inputs.drop_first() =~= later);
    assert(s.step(inputs[0]).state == closed);
    lemma_halted_is_final(closed, later);
    assert(s.run(inputs).commands =~= seq![Command::Exit]);
}

proof fn lemma_deliver_halted(s: AppState, events: Seq<Tagged>)
    requires
        s.halted(),
    ensures
        s.deliver(events) == s.idle(),
    decreases events.len(),
{
    if events.len() > 0 {
        lemma_deliver_halted(s, events.drop_first());
        assert(s.deliver(events).commands =~= s.idle().commands);
    }
}

/// The same holds of events that were held back: those behind a close or
/// destroy event are dropped.
pub proof fn lemma_close_drops_what_follows(
    s: AppState,
    wid: WindowId,
    event: WindowEvent,
    later: Seq<Tagged>,
)
    requires
        s.ready(),
        !s.halted(),
        event.is_terminal(),
    ensures
        s.deliver(seq![(wid, event)] + later) == (Reaction {
            state: AppState { halt: Some(Halt::Closed), ..s },
            commands: seq![Command::Exit],
        }),
{
    let events = seq![(wid, event)] + later;
    let closed = AppState { halt: Some(Halt::Closed), ..s };
    assert(events[0] == (wid, event));
    assert(events.drop_first() =~= later);
    assert(s.window_event(wid, event).state == closed);
    lemma_deliver_halted(closed, later);
    assert(s.deliver(events).commands =~= seq![Command::Exit]);
}

/// Delivering one event is the window event itself.
pub proof fn lemma_deliver_one(s: AppState, wid: WindowId, event: WindowEvent)
    ensures
        s.deliver(seq![(wid, event)]) == s.window_event(wid, event),
{
    let events = seq![(wid, event)];
    let first = s.window_event(wid, event);
    assert(events[0] == (wid, event));
    assert(events.drop_first() =~= Seq::<Tagged>::empty());
    assert(first.state.deliver(events.drop_first()) == first.state.idle());
    assert(s.deliver(events).commands =~= first.commands);
}

/// Delivering two runs of events one after the other is delivering their
/// concatenation.
pub proof fn lemma_deliver_concat(s: AppState, a: Seq<Tagged>, b: Seq<Tagged>)
    ensures
        s.deliver(a + b).state == s.deliver(a).state.deliver(b).state,
        s.deliver(a + b).commands == s.deliver(a).commands + s.deliver(a).state.deliver(
            b,
        ).commands,
    decreases a.len(),
{
    if a.len() == 0 {
        assert(a + b =~= b);
        assert(s.deliver(a + b).commands =~= s.deliver(a).commands + s.deliver(a).state.deliver(
            b,
        ).commands);
    } else {
        let first = s.window_event(a[0].0, a[0].1);
        assert((a + b)[0] == a[0]);
        assert((a + b).drop_first() =~= a.drop_first() + b);
        lemma_deliver_concat(first.state, a.drop_first(), b);
        assert(s.deliver(a + b).commands =~= s.deliver(a).commands + s.deliver(a).state.deliver(
            b,
        ).commands);
    }
}

/// Before readiness every window event is held back, behind those that
/// came before it, and nothing is asked of the host.
pub proof fn lemma_events_held_in_arrival_order(s: AppState, events: Seq<Tagged>)
    requires
        !s.ready(),
        !s.halted(),
    ensures
        s.deliver(events) == (Reaction {
            state: AppState { pending_events: s.pending_events + events, ..s },
            commands: Seq::empty(),
        }),
    decreases events.len(),
{
    if events.len() == 0 {
        assert(s.pending_events + events =~= s.pending_events);
    } else {
        let first = s.window_event(events[0].0, events[0].1);
        lemma_events_held_in_arrival_order(first.state, events.drop_first());
        assert(first.state.pending_events + events.drop_first() =~= s.pending_events + events);
        assert(s.deliver(events).commands =~= Seq::<Command>::empty());
    }
}

/// The window events of a history, oldest first.
pub open spec fn window_events(inputs: Seq<Input>) -> Seq<Tagged>
    decreases inputs.len(),
{
    if inputs.len() == 0 {
        Seq::empty()
    } else {
        let first: Seq<Tagged> = match inputs[0] {
            Input::Window(wid, event) => seq![(wid, event)],
            _ => Seq::empty(),
        };
        first + window_events(inputs.drop_first())
    }
}

/// As long as the application is neither ready nor halted, it holds every
/// window event of its history, in the order in which they came.
pub proof fn lemma_history_is_held_in_order(s: AppState, inputs: Seq<Input>)
    requires
        s.wf(),
        !s.run(inputs).state.ready(),
        !s.run(inputs).state.halted(),
    ensures
        s.run(inputs).state.pending_events == s.pending_events + window_events(inputs),
    decreases inputs.len(),
{
    if inputs.len() == 0 {
        assert(s.pending_events + window_events(inputs) =~= s.pending_events);
    } else {
        let first = s.step(inputs[0]);
        let rest = inputs.drop_first();
        lemma_step_keeps(s, inputs[0], Step::Configure);
        lemma_run_keeps(first.state, rest, Step::Configure);
        lemma_history_is_held_in_order(first.state, rest);
        let held: Seq<Tagged> = match inputs[0] {
            Input::Window(wid, event) => seq![(wid, event)],
            _ => Seq::empty(),
        };
        assert(!first.state.ready() && !first.state.halted());
        assert(!s.ready() && !s.halted());
        match inputs[0] {
            Input::Report(outcome) => {
                assert(outcome.fault() is None);
                assert(outcome.step() is Some && s.awaits(outcome.step()->Some_0));
                if let Outcome::ConfigDerived(config) = outcome {
                    let ready = AppState {
                        phase: Phase::Ready,
                        surface_config: Some(config),
                        pipeline: true,
                        pending_events: Seq::empty(),
                        ..s
                    };
                    lemma_deliver_keeps(ready, s.pending_events, Step::Configure);
                }
                assert(first.state.pending_events == s.pending_events);
            },
            Input::Window(wid, event) => {
                assert(first.state.pending_events == s.pending_events.push((wid, event)));
            },
            Input::Resumed => {},
            Input::Device(event) => {
                assert(first.state == s);
            },
        }
        assert(first.state.pending_events =~= s.pending_events + held);
        assert(s.run(inputs).state.pending_events =~= s.pending_events + window_events(inputs));
    }
}

/// When the chain of a new application completes, the window events of its
/// whole history are delivered, in the order in which they came, right
/// after the pipeline is built and the surface configured.
pub proof fn lemma_held_history_is_replayed(inputs: Seq<Input>, config: SurfaceConfig)
    requires
        AppState::initial().run(inputs).state.awaits(Step::Config),
    ensures
        ({
            let held = AppState::initial().run(inputs).state;
            let ready = AppState {
                phase: Phase::Ready,
                surface_config: Some(config),
                pipeline: true,
                pending_events: Seq::empty(),
                ..held
            };
            let replay = ready.deliver(window_events(inputs));
            held.report(Outcome::ConfigDerived(config)) == (Reaction {
                state: replay.state,
                commands: seq![
                    Command::BuildPipeline(PipelineRequest { format: config.format }),
                    Command::ConfigureSurface(config),
                ] + replay.commands,
            })
        }),
{
    lemma_history_is_held_in_order(AppState::initial(), inputs);
    assert(AppState::initial().pending_events + window_events(inputs) =~= window_events(inputs));
}

/// Events that come before readiness are dispatched, once the application
/// is ready, exactly as if they had come after it in the same order: to
/// hold them back and then complete the chain is to complete the chain and
/// then receive them.
pub proof fn lemma_replay_is_live_delivery(
    s: AppState,
    config: SurfaceConfig,
    events: Seq<Tagged>,
)
    requires
        s.awaits(Step::Config),
    ensures
        ({
            let outcome = Outcome::ConfigDerived(config);
            let held = s.deliver(events).state.report(outcome);
            let ready = s.report(outcome);
            let live = ready.state.deliver(events);
            &&& s.deliver(events).commands == Seq::<Command>::empty()
            &&& held.state == live.state
            &&& held.commands == ready.commands + live.commands
        }),
{
    let outcome = Outcome::ConfigDerived(config);
    let buffered = s.deliver(events).state;
    lemma_events_held_in_arrival_order(s, events);
    assert(buffered.awaits(Step::Config));
    let held = buffered.report(outcome);
    let ready = s.report(outcome);
    let live = ready.state.deliver(events);
    let start = AppState {
        phase: Phase::Ready,
        surface_config: Some(config),
        pipeline: true,
        pending_events: Seq::empty(),
        ..s
    };
    lemma_deliver_concat(start, s.pending_events, events);
    assert(held.commands =~= ready.commands + live.commands);
}

/// Of a burst of resizes only the last one stays pending, and none of them
/// reaches the surface.
pub proof fn lemma_burst_keeps_last(s: AppState, burst: Seq<Tagged>)
    requires
        s.ready(),
        !s.halted(),
        burst.len() > 0,
        forall|i: int| 0 <= i < burst.len() ==> burst[i].1 is Resized,
    ensures
        s.deliver(burst) == (Reaction {
            state: AppState { pending_resize: Some(burst.last().1->Resized_0), ..s },
            commands: Seq::empty(),
        }),
    decreases burst.len(),
{
    let first = s.window_event(burst[0].0, burst[0].1);
    let rest = burst.drop_first();
    if rest.len() == 0 {
        assert(s.deliver(burst).commands =~= Seq::<Command>::empty());
    } else {
        assert(forall|i: int| 0 <= i < rest.len() ==> rest[i] == burst[i + 1]);
        lemma_burst_keeps_last(first.state, rest);
        assert(rest.last() == burst.last());
        assert(s.deliver(burst).commands =~= Seq::<Command>::empty());
    }
}

/// However many resizes come before a redraw request, the surface is
/// configured once, with the size of the last of them; the frame follows,
/// and then the request for another redraw.
pub proof fn lemma_resize_burst_configures_once(s: AppState, burst: Seq<Tagged>, wid: WindowId)
    requires
        s.wf(),
        s.ready(),
        !s.halted(),
        burst.len() > 0,
        forall|i: int| 0 <= i < burst.len() ==> burst[i].1 is Resized,
    ensures
        ({
            let last = burst.last().1->Resized_0;
            let config = s.surface_config->Some_0.resized(last);
            s.deliver(burst.push((wid, WindowEvent::RedrawRequested))) == (Reaction {
                state: AppState { surface_config: Some(config), pending_resize: None, ..s },
                commands: seq![Command::ConfigureSurface(config)] + frame()
                    + seq![Command::RequestRedraw],
            })
        }),
{
    let last = burst.last().1->Resized_0;
    let redraw = seq![(wid, WindowEvent::RedrawRequested)];
    lemma_burst_keeps_last(s, burst);
    lemma_deliver_concat(s, burst, redraw);
    assert(burst.push((wid, WindowEvent::RedrawRequested)) =~= burst + redraw);
    let resized = AppState { pending_resize: Some(last), ..s };
    lemma_deliver_one(resized, wid, WindowEvent::RedrawRequested);
    assert(s.deliver(burst + redraw).commands =~= resized.deliver(redraw).commands);
}

/// A redraw request with no resize pending renders one frame and changes
/// nothing.
pub proof fn lemma_redraw_renders_one_frame(s: AppState, wid: WindowId)
    requires
        s.ready(),
        !s.halted(),
        s.pending_resize is None,
    ensures
        s.window_event(wid, WindowEvent::RedrawRequested) == (Reaction {
            state: s,
            commands: frame(),
        }),
{
}

/// One dispatch configures the surface at most once, and before it
/// acquires the image of the frame.
pub proof fn lemma_dispatch_configures_first(s: AppState, wid: WindowId, event: WindowEvent)
    ensures
        ({
            let commands = s.dispatch(wid, event).commands;
            forall|i: int, j: int|
                0 <= i < commands.len() && 0 <= j < commands.len()
                    && commands[i] is ConfigureSurface ==> {
                    &&& commands[j] is ConfigureSurface ==> i == j
                    &&& commands[j] is AcquireImage ==> i < j
                }
        }),
{
    lemma_frame_is_one_cycle();
}

/// Pointer motion, wheel and pressure change nothing once the application
/// is ready.
pub proof fn lemma_passive_events_change_nothing(s: AppState, wid: WindowId, event: WindowEvent)
    requires
        s.ready(),
        event.is_passive(),
    ensures
        s.window_event(wid, event) == s.idle(),
{
}

} // verus!
