use vstd::prelude::*;

use crate::error::Error;
use crate::player::{PlayerMsg, WorkerJob};

verus! {

/// How long the worker sleeps when a poll finds nothing to do, in milliseconds.
pub const WORKER_POLL_INTERVAL_MS: u64 = 500;

/// Where a playback worker is in its session.
#[derive(Clone, Copy, Debug, PartialEq, Eq, Structural)]
pub enum WorkerPhase {
    /// Opening the source and building the decode and render pipeline.
    Connecting,
    /// Playing; the worker polls the renderer and the control channel.
    Streaming,
    /// Finished; the worker's execution ends.
    Terminated,
}

/// What one look at the control channel found.
#[derive(Clone, Copy, Debug, PartialEq, Eq, Structural)]
pub enum ControlPoll {
    Received(PlayerMsg),
    Empty,
    Disconnected,
}

/// What the worker does next.
#[derive(Clone, Debug, PartialEq, Eq)]
pub enum WorkerAction {
    /// Ramp the (silent) renderer up to this volume, then report success on
    /// the outcome channel.
    FadeInAndReport(u8),
    /// Report this failure on the outcome channel, send the session-ended
    /// signal, and end. A `play` that still waits reads the failure; when
    /// nobody waits any more (after a reconnect, or after the wait timed out),
    /// the control object learns of the end from the signal.
    ReportFailureAndSignal(Error),
    /// The source ended: connect again with the same station, telling no one.
    Reconnect,
    /// The source ended: send the session-ended signal and end.
    SignalSessionEnded,
    /// Told to stop, or the control object is gone: ramp down to silence and end.
    FadeOutAndExit,
    /// Ramp the renderer to this volume and keep streaming.
    RampTo(u8),
    /// Nothing to do: sleep for the poll interval.
    Sleep,
    /// The event does not apply in this phase.
    Ignore,
}

/// The decisions of one playback worker.
#[derive(Clone, Copy, Debug, PartialEq, Eq, Structural)]
pub struct Worker {
    pub phase: WorkerPhase,
    /// Reconnect when the source ends, rather than end the session.
    pub auto_restart: bool,
    /// The volume every connect of this worker ramps up to.
    pub volume_percent: u8,
}

/// The worker's reaction to the outcome of a connect attempt.
pub open spec fn on_connect_spec(w: Worker, outcome: Result<(), Error>) -> (Worker, WorkerAction) {
    match w.phase {
        WorkerPhase::Connecting => match outcome {
            Ok(()) => (Worker { phase: WorkerPhase::Streaming, ..w }, WorkerAction::FadeInAndReport(w.volume_percent)),
            Err(e) => (Worker { phase: WorkerPhase::Terminated, ..w }, WorkerAction::ReportFailureAndSignal(e)),
        },
        _ => (w, WorkerAction::Ignore),
    }
}

/// The worker's reaction to one poll while streaming. The renderer's buffer
/// is looked at first: an ended source takes priority over a pending message.
pub open spec fn on_poll_spec(w: Worker, buffer_empty: bool, poll: ControlPoll) -> (Worker, WorkerAction) {
    match w.phase {
        WorkerPhase::Streaming => {
            if buffer_empty {
                if w.auto_restart {
                    (Worker { phase: WorkerPhase::Connecting, ..w }, WorkerAction::Reconnect)
                } else {
                    (Worker { phase: WorkerPhase::Terminated, ..w }, WorkerAction::SignalSessionEnded)
                }
            } else {
                match poll {
                    ControlPoll::Received(PlayerMsg::Stop) | ControlPoll::Disconnected =>
                        (Worker { phase: WorkerPhase::Terminated, ..w }, WorkerAction::FadeOutAndExit),
                    ControlPoll::Received(PlayerMsg::SetVolume(v)) => (w, WorkerAction::RampTo(v)),
                    ControlPoll::Empty => (w, WorkerAction::Sleep),
                }
            }
        },
        _ => (w, WorkerAction::Ignore),
    }
}

impl Worker {
    /// A worker for `job`, about to connect.
    pub fn new(job: &WorkerJob) -> (r: Worker)
        ensures
            r == (Worker {
                phase: WorkerPhase::Connecting,
                auto_restart: job.station.auto_restart,
                volume_percent: job.volume_percent,
            }),
    {
        Worker { phase: WorkerPhase::Connecting, auto_restart: job.station.auto_restart, volume_percent: job.volume_percent }
    }

    /// Whether the worker's execution has ended.
    pub fn is_terminated(&self) -> (r: bool)
        ensures
            r == (self.phase == WorkerPhase::Terminated),
    {
        self.phase == WorkerPhase::Terminated
    }

    /// Takes the outcome of a connect attempt: a success starts streaming
    /// after the fade-in; a failure is reported once, signalled, and ends the
    /// worker.
    pub fn on_connect(&mut self, outcome: Result<(), Error>) -> (r: WorkerAction)
        ensures
            (*final(self), r) == on_connect_spec(*old(self), outcome),
    {
        match self.phase {
            WorkerPhase::Connecting => match outcome {
                Ok(()) => {
                    self.phase = WorkerPhase::Streaming;
                    WorkerAction::FadeInAndReport(self.volume_percent)
                },
                Err(e) => {
                    self.phase = WorkerPhase::Terminated;
                    WorkerAction::ReportFailureAndSignal(e)
                },
            },
            _ => WorkerAction::Ignore,
        }
    }

    /// Takes one poll while streaming: whether the renderer's buffer is
    /// empty, and what the control channel held.
    pub fn on_poll(&mut self, buffer_empty: bool, poll: ControlPoll) -> (r: WorkerAction)
        ensures
            (*final(self), r) == on_poll_spec(*old(self), buffer_empty, poll),
    {
        match self.phase {
            WorkerPhase::Streaming => {
                if buffer_empty {
                    if self.auto_restart {
                        self.phase = WorkerPhase::Connecting;
                        WorkerAction::Reconnect
                    } else {
                        self.phase = WorkerPhase::Terminated;
                        WorkerAction::SignalSessionEnded
                    }
                } else {
                    match poll {
                        ControlPoll::Received(PlayerMsg::Stop) | ControlPoll::Disconnected => {
                            self.phase = WorkerPhase::Terminated;
                            WorkerAction::FadeOutAndExit
                        },
                        ControlPoll::Received(PlayerMsg::SetVolume(v)) => WorkerAction::RampTo(v),
                        ControlPoll::Empty => WorkerAction::Sleep,
                    }
                }
            },
            _ => WorkerAction::Ignore,
        }
    }
}

} // verus!
