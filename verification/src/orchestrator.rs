//! The session orchestrator: the decision core of the control loop. Each
//! tick of the polling thread, each configuration result, and each answer a
//! collector task's suspension point came back with is an input; the machine
//! decides the next state of the capture handle and of the session, and
//! names the one side effect the caller must perform. The unverified shell
//! only polls, performs the named actions, and feeds the answers back.

use vstd::prelude::*;
use crate::capture::CaptureState;
use crate::collector::{
    events_after_stream, win_after_post_game, win_after_stream, Collector, CollectorInput,
    CollectorPhase, EndReason,
};
use crate::record::TimedEvent;

verus! {

/// Everything the orchestrator reacts to.
pub enum OrchestratorInput {
    /// One tick of the polling loop: was the game window found?
    Tick { window_present: bool },
    /// The process-wide shutdown signal fired.
    Shutdown,
    /// A capture handle was configured; the session will write to this
    /// output path.
    ConfigureDone(String),
    /// Building a capture handle failed; retry on a later tick.
    ConfigureFailed,
    /// An answer arriving at the current collector task.
    Collector(CollectorInput),
}

/// The one side effect the caller must perform after a step.
#[derive(Clone, Copy, PartialEq, Eq, Structural, Debug)]
pub enum Action {
    Idle,
    /// Build and configure a fresh capture handle for the found window.
    Configure,
    /// Spawn the collector task under a fresh child cancellation scope.
    SpawnCollector,
    /// Stop and drop the capture handle if one is alive, clear the recording
    /// indicator, and supervise the collector task's exit: wait a grace
    /// period, cancel its scope, wait again, then abort it.
    Teardown,
    /// Ask the capture engine to start recording.
    RequestCaptureStart,
    /// The engine's start failed or came too late: stop it defensively and
    /// discard the half-initialized handle.
    StopCapture,
    /// Surface the "recording" indicator to the UI shell.
    MarkRecording,
    /// The record is finished: write the metadata sidecar.
    Persist,
}

/// The control summary of a collector: its phase and the two session flags.
pub struct ControlCollector {
    pub phase: CollectorPhase,
    pub started: bool,
    pub winding_down: bool,
}

/// The control summary of the whole machine, the level at which the laws of
/// the orchestrator are stated and proved.
pub struct ControlState {
    pub capture: CaptureState,
    pub collector: Option<ControlCollector>,
    pub path_ready: bool,
    pub shutdown: bool,
}

/// The initial control state: no handle, no session.
pub open spec fn init_control() -> ControlState {
    ControlState {
        capture: CaptureState::Absent,
        collector: None,
        path_ready: false,
        shutdown: false,
    }
}

/// A freshly spawned session's summary.
pub open spec fn fresh_collector_control() -> ControlCollector {
    ControlCollector { phase: CollectorPhase::AwaitMatch, started: false, winding_down: false }
}

/// The phases a collector can only be in after capture has started.
pub open spec fn phase_started(p: CollectorPhase) -> bool {
    match p {
        CollectorPhase::Streaming => true,
        CollectorPhase::PostGameSubscribe => true,
        CollectorPhase::PostGameAwait => true,
        CollectorPhase::Done(r) => r == EndReason::Completed,
        _ => false,
    }
}

/// The machine's invariant. Its first clause is the central law: the handle
/// records exactly while the current session has started capture and has not
/// been torn down.
pub open spec fn control_inv(s: ControlState) -> bool {
    &&& (s.capture is Recording <==> (s.collector matches Some(c) && c.started
        && !c.winding_down))
    &&& (s.capture !is Absent ==> s.path_ready)
    &&& (s.collector matches Some(c) ==> (c.started <==> phase_started(c.phase)))
    &&& (s.collector matches Some(c) ==> (c.phase matches CollectorPhase::Done(r) ==> r
        == EndReason::Completed))
}

/// Teardown: the handle is stopped and dropped, and a still-running
/// collector is left winding down under supervision; a finished one is
/// discarded.
pub open spec fn teardown_control(s: ControlState) -> ControlState {
    ControlState {
        capture: CaptureState::Absent,
        path_ready: false,
        collector: match s.collector {
            Some(c) => if c.phase is Done {
                None
            } else {
                Some(ControlCollector { winding_down: true, ..c })
            },
            None => None,
        },
        shutdown: s.shutdown,
    }
}

/// One tick of the polling loop, following the orchestrator's decision
/// table: configure when the window is found and no handle is alive; spawn
/// the collector when a handle is alive and no session runs; tear down when
/// the window is gone and anything is still alive; otherwise do nothing.
pub open spec fn spec_tick(s: ControlState, window_present: bool) -> (ControlState, Action) {
    if s.shutdown {
        (s, Action::Idle)
    } else if window_present {
        if s.capture is Absent {
            (s, Action::Configure)
        } else if s.collector is None {
            (ControlState { collector: Some(fresh_collector_control()), ..s }, Action::SpawnCollector)
        } else {
            (s, Action::Idle)
        }
    } else {
        if s.capture is Absent && s.collector is None {
            (s, Action::Idle)
        } else {
            (teardown_control(s), Action::Teardown)
        }
    }
}

/// The shutdown signal: the same teardown, with the loop marked as exiting;
/// the caller uses the shorter grace period and then shuts the capture
/// subsystem down for good.
pub open spec fn spec_shutdown(s: ControlState) -> (ControlState, Action) {
    (ControlState { shutdown: true, ..teardown_control(s) }, Action::Teardown)
}

/// A session reaching a terminal phase: a session that never started
/// capture is discarded at once and leaves nothing behind; a completed
/// recording session stays in its slot — its record is read from there for
/// persistence — until teardown clears it.
pub open spec fn terminal_control(s: ControlState, c: ControlCollector, reason: EndReason) -> ControlState {
    let c2 = ControlCollector { phase: CollectorPhase::Done(reason), ..c };
    if !c2.started {
        ControlState { collector: None, ..s }
    } else {
        ControlState { collector: Some(c2), ..s }
    }
}

/// The current collector's phase advanced, everything else untouched.
pub open spec fn advance_control(s: ControlState, c: ControlCollector, p: CollectorPhase) -> ControlState {
    ControlState { collector: Some(ControlCollector { phase: p, ..c }), ..s }
}

/// One answer arriving at the collector task.
pub open spec fn spec_collector_step(s: ControlState, c: ControlCollector, inp: CollectorInput) -> (
    ControlState,
    Action,
) {
    if inp is Aborted {
        if c.winding_down {
            (ControlState { collector: None, ..s }, Action::Idle)
        } else {
            (s, Action::Idle)
        }
    } else {
        match c.phase {
            CollectorPhase::AwaitMatch => match inp {
                CollectorInput::Cancelled => (
                    terminal_control(s, c, EndReason::CancelledEarly),
                    Action::Idle,
                ),
                CollectorInput::MatchActive => (
                    advance_control(s, c, CollectorPhase::CheckSpectator),
                    Action::Idle,
                ),
                _ => (s, Action::Idle),
            },
            CollectorPhase::CheckSpectator => match inp {
                CollectorInput::Cancelled => (
                    terminal_control(s, c, EndReason::CancelledEarly),
                    Action::Idle,
                ),
                CollectorInput::SpectatorYes => (
                    terminal_control(s, c, EndReason::Spectator),
                    Action::Idle,
                ),
                CollectorInput::SpectatorNo => (
                    advance_control(s, c, CollectorPhase::TakeSnapshot),
                    Action::Idle,
                ),
                _ => (s, Action::Idle),
            },
            CollectorPhase::TakeSnapshot => match inp {
                CollectorInput::Cancelled => (
                    terminal_control(s, c, EndReason::CancelledEarly),
                    Action::Idle,
                ),
                CollectorInput::SnapshotOk(_) | CollectorInput::SnapshotFailed => if s.capture
                    is Configured && !c.winding_down {
                    (advance_control(s, c, CollectorPhase::StartCapture), Action::RequestCaptureStart)
                } else {
                    (terminal_control(s, c, EndReason::CaptureUnavailable), Action::Idle)
                },
                _ => (s, Action::Idle),
            },
            CollectorPhase::StartCapture => match inp {
                CollectorInput::Cancelled => (
                    terminal_control(s, c, EndReason::CancelledEarly),
                    Action::Idle,
                ),
                CollectorInput::CaptureStarted => if s.capture is Configured && !c.winding_down {
                    (
                        ControlState {
                            capture: CaptureState::Recording,
                            collector: Some(
                                ControlCollector {
                                    phase: CollectorPhase::Streaming,
                                    started: true,
                                    winding_down: c.winding_down,
                                },
                            ),
                            ..s
                        },
                        Action::MarkRecording,
                    )
                } else {
                    (terminal_control(s, c, EndReason::CaptureUnavailable), Action::StopCapture)
                },
                CollectorInput::CaptureStartFailed => if s.capture is Configured
                    && !c.winding_down {
                    (
                        ControlState {
                            capture: CaptureState::Absent,
                            path_ready: false,
                            ..terminal_control(s, c, EndReason::StartFailed)
                        },
                        Action::StopCapture,
                    )
                } else {
                    (terminal_control(s, c, EndReason::StartFailed), Action::Idle)
                },
                _ => (s, Action::Idle),
            },
            CollectorPhase::Streaming => match inp {
                CollectorInput::Cancelled => (
                    terminal_control(s, c, EndReason::Completed),
                    Action::Persist,
                ),
                CollectorInput::StreamEvent(_, _) => (s, Action::Idle),
                CollectorInput::StreamEnded => (
                    advance_control(s, c, CollectorPhase::PostGameSubscribe),
                    Action::Idle,
                ),
                _ => (s, Action::Idle),
            },
            CollectorPhase::PostGameSubscribe => match inp {
                CollectorInput::Cancelled | CollectorInput::SubscribeFailed => (
                    terminal_control(s, c, EndReason::Completed),
                    Action::Persist,
                ),
                CollectorInput::SubscribeOk => (
                    advance_control(s, c, CollectorPhase::PostGameAwait),
                    Action::Idle,
                ),
                _ => (s, Action::Idle),
            },
            CollectorPhase::PostGameAwait => match inp {
                CollectorInput::Cancelled
                | CollectorInput::PostGameTimeout
                | CollectorInput::PostGameStats { .. } => (
                    terminal_control(s, c, EndReason::Completed),
                    Action::Persist,
                ),
                _ => (s, Action::Idle),
            },
            CollectorPhase::Done(_) => (s, Action::Idle),
        }
    }
}

/// The machine's full transition function.
pub open spec fn spec_step(s: ControlState, inp: OrchestratorInput) -> (ControlState, Action) {
    match inp {
        OrchestratorInput::Tick { window_present } => spec_tick(s, window_present),
        OrchestratorInput::Shutdown => spec_shutdown(s),
        OrchestratorInput::ConfigureDone(_) => if s.capture is Absent && !s.shutdown {
            (ControlState { capture: CaptureState::Configured, path_ready: true, ..s }, Action::Idle)
        } else {
            (s, Action::Idle)
        },
        OrchestratorInput::ConfigureFailed => (s, Action::Idle),
        OrchestratorInput::Collector(ci) => match s.collector {
            Some(c) => spec_collector_step(s, c, ci),
            None => (s, Action::Idle),
        },
    }
}

/// The session orchestrator's state: the capture handle's state, the current
/// session's collector, the output path chosen at configuration, and whether
/// shutdown was requested.
pub struct Orchestrator {
    pub capture: CaptureState,
    pub collector: Option<Collector>,
    pub output_path: Option<String>,
    pub shutdown: bool,
}

/// How a step may touch the session record: a spawned session starts from a
/// fresh record on the configured output path, and a surviving record
/// changes exactly as the input prescribes — snapshot installed once, stream
/// events appended in arrival order, outcome first-writer-wins, statistics
/// installed when they parsed.
pub open spec fn record_step_ok(pre: Orchestrator, post: Orchestrator, input: OrchestratorInput) -> bool {
    match (pre.collector, post.collector) {
        (None, Some(c2)) => {
            &&& (pre.output_path matches Some(p) && c2.record.output_path == p)
            &&& c2.record.events@ == Seq::<TimedEvent>::empty()
            &&& c2.record.win is None
            &&& c2.record.stats is None
        },
        (Some(c1), Some(c2)) => {
            &&& c2.record.output_path == c1.record.output_path
            &&& c2.record.game_info == (match input {
                OrchestratorInput::Collector(CollectorInput::SnapshotOk(info)) => if c1.phase
                    == CollectorPhase::TakeSnapshot {
                    info
                } else {
                    c1.record.game_info
                },
                _ => c1.record.game_info,
            })
            &&& c2.record.events@ == (match input {
                OrchestratorInput::Collector(CollectorInput::StreamEvent(ev, t)) => if c1.phase
                    == CollectorPhase::Streaming {
                    events_after_stream(c1.record, ev@, t)
                } else {
                    c1.record.events@
                },
                _ => c1.record.events@,
            })
            &&& c2.record.win == (match input {
                OrchestratorInput::Collector(CollectorInput::StreamEvent(ev, _)) => if c1.phase
                    == CollectorPhase::Streaming {
                    win_after_stream(c1.record, ev@)
                } else {
                    c1.record.win
                },
                OrchestratorInput::Collector(
                    CollectorInput::PostGameStats { has_win, has_lose, .. },
                ) => if c1.phase == CollectorPhase::PostGameAwait {
                    win_after_post_game(c1.record.win, has_win, has_lose)
                } else {
                    c1.record.win
                },
                _ => c1.record.win,
            })
            &&& c2.record.stats == (match input {
                OrchestratorInput::Collector(CollectorInput::PostGameStats { stats: st, .. }) => if c1.phase
                    == CollectorPhase::PostGameAwait {
                    match st {
                        Some(s) => Some(s),
                        None => c1.record.stats,
                    }
                } else {
                    c1.record.stats
                },
                _ => c1.record.stats,
            })
        },
        _ => true,
    }
}

impl Orchestrator {
    /// The control summary the laws speak about.
    pub open spec fn control(self) -> ControlState {
        ControlState {
            capture: self.capture,
            collector: match self.collector {
                Some(c) => Some(
                    ControlCollector {
                        phase: c.phase,
                        started: c.started,
                        winding_down: c.winding_down,
                    },
                ),
                None => None,
            },
            path_ready: self.output_path is Some,
            shutdown: self.shutdown,
        }
    }

    pub open spec fn inv(self) -> bool {
        &&& control_inv(self.control())
        &&& (self.collector matches Some(c) ==> c.wf())
    }

    /// A fresh orchestrator: no handle, no session, not shutting down.
    pub fn new() -> (r: Orchestrator)
        ensures
            r.control() == init_control(),
            r.inv(),
    {
        Orchestrator { capture: CaptureState::Absent, collector: None, output_path: None, shutdown: false }
    }

    /// Stops and forgets the handle and puts the session, if one is still
    /// running, under supervision.
    fn teardown_now(&mut self)
        requires
            old(self).inv(),
        ensures
            final(self).control() == teardown_control(old(self).control()),
            final(self).shutdown == old(self).shutdown,
            final(self).inv(),
            match (old(self).collector, final(self).collector) {
                (Some(c1), Some(c2)) => c2.record == c1.record,
                (Some(_), None) => true,
                (None, None) => true,
                (None, Some(_)) => false,
            },
    {
        self.capture = CaptureState::Absent;
        self.output_path = None;
        let drop_it = match &self.collector {
            Some(c) => matches!(c.phase, CollectorPhase::Done(_)),
            None => false,
        };
        if drop_it {
            self.collector = None;
        } else {
            match &mut self.collector {
                Some(c) => c.winding_down = true,
                None => {},
            }
        }
    }

    /// Ends the current session for `reason`, discarding it at once unless
    /// it is a completed recording, whose record stays readable until
    /// teardown.
    fn finish(&mut self, reason: EndReason)
        requires
            old(self).collector is Some,
        ensures
            final(self).capture == old(self).capture,
            final(self).output_path == old(self).output_path,
            final(self).shutdown == old(self).shutdown,
            match old(self).collector {
                Some(c) => if !c.started {
                    final(self).collector is None
                } else {
                    final(self).collector == Some(
                        (Collector { phase: CollectorPhase::Done(reason), ..c }),
                    )
                },
                None => false,
            },
    {
        let drop_it = match &self.collector {
            Some(c) => !c.started,
            None => false,
        };
        if drop_it {
            self.collector = None;
        } else {
            match &mut self.collector {
                Some(c) => c.phase = CollectorPhase::Done(reason),
                None => {},
            }
        }
    }

    /// Moves the current session to phase `p`.
    fn advance(&mut self, p: CollectorPhase)
        requires
            old(self).collector is Some,
        ensures
            final(self).capture == old(self).capture,
            final(self).output_path == old(self).output_path,
            final(self).shutdown == old(self).shutdown,
            match old(self).collector {
                Some(c) => final(self).collector == Some((Collector { phase: p, ..c })),
                None => false,
            },
    {
        match &mut self.collector {
            Some(c) => c.phase = p,
            None => {},
        }
    }

    /// One step of the machine. The control summary moves exactly as
    /// `spec_step` prescribes, the returned action is the step's one side
    /// effect, and the session record evolves as `record_step_ok` states.
    pub fn step(&mut self, input: OrchestratorInput) -> (a: Action)
        requires
            old(self).inv(),
            input matches OrchestratorInput::Collector(CollectorInput::StreamEvent(_, t)) ==> (
            old(self).collector matches Some(c) ==> (c.phase == CollectorPhase::Streaming ==> t
                >= c.record.last_time())),
        ensures
            final(self).inv(),
            final(self).control() == spec_step(old(self).control(), input).0,
            a == spec_step(old(self).control(), input).1,
            record_step_ok(*old(self), *final(self), input),
            // the stored output path is exactly the configured one: an
            // accepted configuration installs the path it was given, and no
            // other input ever exchanges it for a different one — it is only
            // kept or cleared, as the control state prescribes
            input matches OrchestratorInput::ConfigureDone(path) ==> final(self).output_path == (
            if old(self).capture is Absent && !old(self).shutdown {
                Some(path)
            } else {
                old(self).output_path
            }),
            !(input matches OrchestratorInput::ConfigureDone(_)) ==> (final(self).output_path
                == old(self).output_path || final(self).output_path is None),
    {
        match input {
            OrchestratorInput::Tick { window_present } => {
                if self.shutdown {
                    Action::Idle
                } else if window_present {
                    if matches!(self.capture, CaptureState::Absent) {
                        Action::Configure
                    } else if self.collector.is_none() {
                        match &self.output_path {
                            Some(p) => {
                                let c = Collector::new(p.clone());
                                self.collector = Some(c);
                                Action::SpawnCollector
                            },
                            None => {
                                proof {
                                    assert(false);
                                }
                                Action::Idle
                            },
                        }
                    } else {
                        Action::Idle
                    }
                } else {
                    if matches!(self.capture, CaptureState::Absent) && self.collector.is_none() {
                        Action::Idle
                    } else {
                        self.teardown_now();
                        Action::Teardown
                    }
                }
            },
            OrchestratorInput::Shutdown => {
                self.teardown_now();
                self.shutdown = true;
                Action::Teardown
            },
            OrchestratorInput::ConfigureDone(path) => {
                if matches!(self.capture, CaptureState::Absent) && !self.shutdown {
                    self.capture = CaptureState::Configured;
                    self.output_path = Some(path);
                }
                Action::Idle
            },
            OrchestratorInput::ConfigureFailed => Action::Idle,
            OrchestratorInput::Collector(ci) => self.on_collector(ci),
        }
    }

    /// Routes one collector answer.
    fn on_collector(&mut self, ci: CollectorInput) -> (a: Action)
        requires
            old(self).inv(),
            ci matches CollectorInput::StreamEvent(_, t) ==> (old(self).collector matches Some(c)
                ==> (c.phase == CollectorPhase::Streaming ==> t >= c.record.last_time())),
        ensures
            final(self).inv(),
            final(self).control() == spec_step(
                old(self).control(),
                OrchestratorInput::Collector(ci),
            ).0,
            a == spec_step(old(self).control(), OrchestratorInput::Collector(ci)).1,
            record_step_ok(*old(self), *final(self), OrchestratorInput::Collector(ci)),
            final(self).output_path == old(self).output_path || final(self).output_path is None,
    {
        let (phase, winding) = match &self.collector {
            Some(c) => (c.phase, c.winding_down),
            None => {
                return Action::Idle;
            },
        };
        if matches!(ci, CollectorInput::Aborted) {
            if winding {
                self.collector = None;
            }
            return Action::Idle;
        }
        match phase {
            CollectorPhase::AwaitMatch => match ci {
                CollectorInput::Cancelled => {
                    self.finish(EndReason::CancelledEarly);
                    Action::Idle
                },
                CollectorInput::MatchActive => {
                    self.advance(CollectorPhase::CheckSpectator);
                    Action::Idle
                },
                _ => Action::Idle,
            },
            CollectorPhase::CheckSpectator => match ci {
                CollectorInput::Cancelled => {
                    self.finish(EndReason::CancelledEarly);
                    Action::Idle
                },
                CollectorInput::SpectatorYes => {
                    self.finish(EndReason::Spectator);
                    Action::Idle
                },
                CollectorInput::SpectatorNo => {
                    self.advance(CollectorPhase::TakeSnapshot);
                    Action::Idle
                },
                _ => Action::Idle,
            },
            CollectorPhase::TakeSnapshot => match ci {
                CollectorInput::Cancelled => {
                    self.finish(EndReason::CancelledEarly);
                    Action::Idle
                },
                CollectorInput::SnapshotOk(info) => {
                    if matches!(self.capture, CaptureState::Configured) && !winding {
                        match &mut self.collector {
                            Some(c) => c.record.set_game_info(info),
                            None => {},
                        }
                        self.advance(CollectorPhase::StartCapture);
                        Action::RequestCaptureStart
                    } else {
                        self.finish(EndReason::CaptureUnavailable);
                        Action::Idle
                    }
                },
                CollectorInput::SnapshotFailed => {
                    if matches!(self.capture, CaptureState::Configured) && !winding {
                        self.advance(CollectorPhase::StartCapture);
                        Action::RequestCaptureStart
                    } else {
                        self.finish(EndReason::CaptureUnavailable);
                        Action::Idle
                    }
                },
                _ => Action::Idle,
            },
            CollectorPhase::StartCapture => match ci {
                CollectorInput::Cancelled => {
                    self.finish(EndReason::CancelledEarly);
                    Action::Idle
                },
                CollectorInput::CaptureStarted => {
                    if matches!(self.capture, CaptureState::Configured) && !winding {
                        self.capture = CaptureState::Recording;
                        match &mut self.collector {
                            Some(c) => {
                                c.phase = CollectorPhase::Streaming;
                                c.started = true;
                            },
                            None => {},
                        }
                        Action::MarkRecording
                    } else {
                        self.finish(EndReason::CaptureUnavailable);
                        Action::StopCapture
                    }
                },
                CollectorInput::CaptureStartFailed => {
                    if matches!(self.capture, CaptureState::Configured) && !winding {
                        self.capture = CaptureState::Absent;
                        self.output_path = None;
                        self.finish(EndReason::StartFailed);
                        Action::StopCapture
                    } else {
                        self.finish(EndReason::StartFailed);
                        Action::Idle
                    }
                },
                _ => Action::Idle,
            },
            CollectorPhase::Streaming => match ci {
                CollectorInput::Cancelled => {
                    self.finish(EndReason::Completed);
                    Action::Persist
                },
                CollectorInput::StreamEvent(ev, t) => {
                    match &mut self.collector {
                        Some(c) => c.apply_stream_event(&ev, t),
                        None => {},
                    }
                    Action::Idle
                },
                CollectorInput::StreamEnded => {
                    self.advance(CollectorPhase::PostGameSubscribe);
                    Action::Idle
                },
                _ => Action::Idle,
            },
            CollectorPhase::PostGameSubscribe => match ci {
                CollectorInput::Cancelled | CollectorInput::SubscribeFailed => {
                    self.finish(EndReason::Completed);
                    Action::Persist
                },
                CollectorInput::SubscribeOk => {
                    self.advance(CollectorPhase::PostGameAwait);
                    Action::Idle
                },
                _ => Action::Idle,
            },
            CollectorPhase::PostGameAwait => match ci {
                CollectorInput::Cancelled | CollectorInput::PostGameTimeout => {
                    self.finish(EndReason::Completed);
                    Action::Persist
                },
                CollectorInput::PostGameStats { has_win, has_lose, stats } => {
                    match &mut self.collector {
                        Some(c) => c.apply_post_game(has_win, has_lose, stats),
                        None => {},
                    }
                    self.finish(EndReason::Completed);
                    Action::Persist
                },
                _ => Action::Idle,
            },
            CollectorPhase::Done(_) => Action::Idle,
        }
    }

    /// Whether the capture handle is currently writing video; this is what
    /// the UI shell's indicator shows.
    pub fn is_recording(&self) -> (r: bool)
        ensures
            r == (self.capture is Recording),
    {
        matches!(self.capture, CaptureState::Recording)
    }

    /// The current session's phase, for the task driving it.
    pub fn collector_phase(&self) -> (r: Option<CollectorPhase>)
        ensures
            r == match self.collector {
                Some(c) => Some(c.phase),
                None => None::<CollectorPhase>,
            },
    {
        match &self.collector {
            Some(c) => Some(c.phase),
            None => None,
        }
    }

    /// The current session's record, for the metadata writer.
    pub fn session_record(&self) -> (r: Option<&crate::record::SessionRecord>)
        ensures
            match r {
                Some(rec) => self.collector matches Some(c) && *rec == c.record,
                None => self.collector is None,
            },
    {
        match &self.collector {
            Some(c) => Some(&c.record),
            None => None,
        }
    }

    /// Whether the loop is exiting; after this the caller shuts the capture
    /// subsystem down exactly once.
    pub fn is_shutting_down(&self) -> (r: bool)
        ensures
            r == self.shutdown,
    {
        self.shutdown
    }
}

/// Folds a sequence of inputs through the machine's transition function.
pub open spec fn run_from(s: ControlState, inputs: Seq<OrchestratorInput>) -> ControlState
    decreases inputs.len(),
{
    if inputs.len() == 0 {
        s
    } else {
        run_from(spec_step(s, inputs.first()).0, inputs.drop_first())
    }
}

/// Every step of the machine preserves its invariant.
pub proof fn lemma_step_preserves_control_inv(s: ControlState, inp: OrchestratorInput)
    requires
        control_inv(s),
    ensures
        control_inv(spec_step(s, inp).0),
{
}

/// The invariant holds along any input sequence.
pub proof fn lemma_run_preserves_control_inv(s: ControlState, inputs: Seq<OrchestratorInput>)
    requires
        control_inv(s),
    ensures
        control_inv(run_from(s, inputs)),
    decreases inputs.len(),
{
    if inputs.len() > 0 {
        lemma_step_preserves_control_inv(s, inputs.first());
        lemma_run_preserves_control_inv(spec_step(s, inputs.first()).0, inputs.drop_first());
    }
}

/// Law: after any sequence of inputs from the initial state, the capture
/// handle is in `Recording` exactly while the current session's collector
/// has passed its capture-start step and the session has not been torn down.
pub proof fn lemma_recording_iff_capture_started(inputs: Seq<OrchestratorInput>)
    ensures
        ({
            let s = run_from(init_control(), inputs);
            s.capture is Recording <==> (s.collector matches Some(c) && c.started
                && !c.winding_down)
        }),
{
    lemma_run_preserves_control_inv(init_control(), inputs);
}

/// Law: a spectator-mode match never drives the handle to `Recording`. When
/// the spectator answer arrives the handle is not recording — the session
/// has not started capture — and the session ends on the spot, leaving the
/// handle untouched and asking for no capture start, no recording indicator
/// and no persist.
pub proof fn lemma_spectator_never_records(inputs: Seq<OrchestratorInput>)
    ensures
        ({
            let s = run_from(init_control(), inputs);
            (s.collector matches Some(c) && c.phase == CollectorPhase::CheckSpectator) ==> {
                let (s2, a) = spec_step(
                    s,
                    OrchestratorInput::Collector(CollectorInput::SpectatorYes),
                );
                &&& s.capture !is Recording
                &&& s2.collector is None
                &&& s2.capture == s.capture
                &&& a == Action::Idle
            }
        }),
{
    lemma_run_preserves_control_inv(init_control(), inputs);
}

/// Law: a session cancelled while still awaiting an active match — the
/// window disappeared before a match was confirmed — vanishes in that very
/// step, and no persist is requested for it.
pub proof fn lemma_cancelled_waiting_never_persists(inputs: Seq<OrchestratorInput>)
    ensures
        ({
            let s = run_from(init_control(), inputs);
            (s.collector matches Some(c) && c.phase == CollectorPhase::AwaitMatch) ==> {
                let (s2, a) = spec_step(s, OrchestratorInput::Collector(CollectorInput::Cancelled));
                &&& a != Action::Persist
                &&& s2.collector is None
            }
        }),
{
    lemma_run_preserves_control_inv(init_control(), inputs);
}

/// Law: a persist action is only ever emitted for a session whose capture
/// was started; together with the previous law, a session that never
/// confirmed its match leaves no record behind.
pub proof fn lemma_persist_only_after_capture_start(
    inputs: Seq<OrchestratorInput>,
    next: OrchestratorInput,
)
    ensures
        ({
            let s = run_from(init_control(), inputs);
            spec_step(s, next).1 == Action::Persist ==> (s.collector matches Some(c) && c.started)
        }),
{
    lemma_run_preserves_control_inv(init_control(), inputs);
}

/// Law: a persist action marks the transition into the terminal phase: it
/// is only emitted for a running session, never for one already terminal,
/// and the session is terminal immediately afterwards. A session's record is
/// therefore persisted at most once.
pub proof fn lemma_record_persisted_at_most_once(
    inputs: Seq<OrchestratorInput>,
    next: OrchestratorInput,
)
    ensures
        ({
            let s = run_from(init_control(), inputs);
            spec_step(s, next).1 == Action::Persist ==> {
                &&& (s.collector matches Some(c) && !(c.phase is Done))
                &&& (match spec_step(s, next).0.collector {
                    Some(c2) => c2.phase is Done,
                    None => true,
                })
            }
        }),
{
    lemma_run_preserves_control_inv(init_control(), inputs);
}

/// Law: cancelling the session's scope while it waits on the post-game
/// subscription ends the session in that same step — the record is
/// persisted at once and the session is terminal — so the orchestrator's
/// later ticks never wait on it.
pub proof fn lemma_cancel_during_post_game_terminates(inputs: Seq<OrchestratorInput>)
    ensures
        ({
            let s = run_from(init_control(), inputs);
            (s.collector matches Some(c) && (c.phase == CollectorPhase::PostGameSubscribe
                || c.phase == CollectorPhase::PostGameAwait)) ==> {
                let (s2, a) = spec_step(s, OrchestratorInput::Collector(CollectorInput::Cancelled));
                &&& a == Action::Persist
                &&& (match s2.collector {
                    Some(c2) => c2.phase is Done,
                    None => true,
                })
            }
        }),
{
    lemma_run_preserves_control_inv(init_control(), inputs);
}

} // verus!
