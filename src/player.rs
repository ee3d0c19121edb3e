use vstd::prelude::*;

use crate::config::Station;
use crate::error::Error;

verus! {

/// How long `play` waits for the worker to report a connect outcome.
pub const STREAM_CONNECT_TIMEOUT_SECS: u8 = 10;

/// How often `play` looks for the connect outcome, in milliseconds.
pub const CONNECT_POLL_INTERVAL_MS: u32 = 500;

/// A message from the control object to its playback worker.
#[derive(Clone, Copy, Debug, PartialEq, Eq, Structural)]
pub enum PlayerMsg {
    Stop,
    SetVolume(u8),
}

/// The abstract state of the control object.
pub struct PlayerState {
    /// A worker owns the receiving end of the control channel.
    pub worker_alive: bool,
    /// The station being played, once its worker has connected.
    pub station: Option<Station>,
    pub volume_percent: u8,
    pub device_idx: usize,
}

impl PlayerState {
    /// A station is only ever current while a worker is alive.
    pub open spec fn wf(self) -> bool {
        self.station is Some ==> self.worker_alive
    }
}

/// What a newly spawned worker is handed: its own copies of the station,
/// the volume and the output device.
pub struct WorkerJob {
    pub station: Station,
    pub volume_percent: u8,
    pub device_idx: usize,
}

/// What the caller of `play` does before it waits for the connect outcome.
pub struct PlayStart {
    /// Sent on the old control channel first, when a worker was alive; the
    /// caller then replaces both channel pairs.
    pub stop_previous: Option<PlayerMsg>,
    /// The worker to spawn on the (fresh) control channel.
    pub job: WorkerJob,
}

/// What the worker has reported so far while `play` waits for it.
pub enum ConnectOutcome {
    Pending,
    Connected,
    Failed(Error),
}

/// The decision of one look at the connect outcome.
pub enum WaitStep {
    KeepWaiting,
    Done(Result<(), Error>),
}

/// The state with no worker and no station; volume and device are kept.
pub open spec fn idle(s: PlayerState) -> PlayerState {
    PlayerState { worker_alive: false, station: None, volume_percent: s.volume_percent, device_idx: s.device_idx }
}

/// `stop(send_signal)`: the new state and the result.
pub open spec fn stop_spec(s: PlayerState, send_signal: bool) -> (PlayerState, Result<Option<PlayerMsg>, Error>) {
    if s.worker_alive {
        (idle(s), Ok(if send_signal { Some(PlayerMsg::Stop) } else { None }))
    } else {
        (s, Err(Error::NotPlaying))
    }
}

/// `play(station)`: a live worker is stopped first, then a new one takes the
/// control channel; no station is current until it connects.
pub open spec fn play_spec(s: PlayerState, station: Station) -> (PlayerState, PlayStart) {
    let stopped = if s.worker_alive { stop_spec(s, true).0 } else { s };
    let stop_previous = if s.worker_alive { stop_spec(s, true).1->Ok_0 } else { None };
    (
        PlayerState { worker_alive: true, station: None, ..stopped },
        PlayStart {
            stop_previous,
            job: WorkerJob { station, volume_percent: stopped.volume_percent, device_idx: stopped.device_idx },
        },
    )
}

/// The connect wait has lasted `polls` poll intervals, at least the timeout.
pub open spec fn timed_out(polls: u32) -> bool {
    polls as int * CONNECT_POLL_INTERVAL_MS as int >= STREAM_CONNECT_TIMEOUT_SECS as int * 1000
}

/// One look at the connect outcome after `polls` poll intervals of waiting
/// for `station`: the new state and the decision.
pub open spec fn connect_poll_spec(s: PlayerState, station: Station, polls: u32, outcome: ConnectOutcome) -> (PlayerState, WaitStep) {
    match outcome {
        ConnectOutcome::Connected => (PlayerState { station: Some(station), ..s }, WaitStep::Done(Ok(()))),
        ConnectOutcome::Failed(e) => (stop_spec(s, false).0, WaitStep::Done(Err(e))),
        ConnectOutcome::Pending => {
            if timed_out(polls) {
                (s, WaitStep::Done(Err(Error::StreamConnectTimeout(STREAM_CONNECT_TIMEOUT_SECS))))
            } else {
                (s, WaitStep::KeepWaiting)
            }
        },
    }
}

/// `curr_station_id(session_ended)`: a pending session-ended signal stops the
/// player without signalling the (already finished) worker.
pub open spec fn curr_station_id_spec(s: PlayerState, session_ended: bool) -> (PlayerState, Option<Seq<char>>) {
    if session_ended {
        (stop_spec(s, false).0, None)
    } else {
        (s, match s.station { Some(st) => Some(st.id@), None => None })
    }
}

/// The control object: the bookkeeping of which worker is alive, which
/// station plays, and the volume and output device that the next worker gets.
///
/// The channels themselves belong to the caller, which performs what each
/// method returns: sending a message, replacing both channel pairs after a
/// successful `stop`, spawning a worker after `play`.
pub struct Player {
    worker_alive: bool,
    curr_station: Option<Station>,
    volume_percent: u8,
    alsa_device_idx: usize,
}

impl View for Player {
    type V = PlayerState;

    closed spec fn view(&self) -> PlayerState {
        PlayerState {
            worker_alive: self.worker_alive,
            station: self.curr_station,
            volume_percent: self.volume_percent,
            device_idx: self.alsa_device_idx,
        }
    }
}

impl Player {
    /// An idle player with the given volume and output device.
    pub fn new(volume_percent: u8, alsa_device_idx: usize) -> (r: Result<Self, Error>)
        ensures
            r is Ok,
            r->Ok_0@.wf(),
            r->Ok_0@ == (PlayerState { worker_alive: false, station: None, volume_percent, device_idx: alsa_device_idx }),
    {
        Ok(Player { worker_alive: false, curr_station: None, volume_percent, alsa_device_idx })
    }

    /// Whether a worker currently owns the control channel.
    pub fn is_playing(&self) -> (r: bool)
        ensures
            r == self@.worker_alive,
    {
        self.worker_alive
    }

    pub fn volume_percent(&self) -> (r: u8)
        ensures
            r == self@.volume_percent,
    {
        self.volume_percent
    }

    pub fn device_idx(&self) -> (r: usize)
        ensures
            r == self@.device_idx,
    {
        self.alsa_device_idx
    }

    /// The id of the current station. `session_ended` tells whether the
    /// worker has signalled that its session ended on its own; the player is
    /// then stopped, and the caller replaces both channel pairs.
    pub fn curr_station_id(&mut self, session_ended: bool) -> (r: Option<String>)
        requires
            session_ended ==> old(self)@.worker_alive,
        ensures
            (final(self)@, match r { Some(id) => Some(id@), None => None }) == curr_station_id_spec(old(self)@, session_ended),
            old(self)@.wf() ==> final(self)@.wf(),
    {
        if session_ended {
            let _ = self.stop(false);
            None
        } else {
            match &self.curr_station {
                Some(station) => Some(station.id.clone()),
                None => None,
            }
        }
    }

    /// Stores the volume; while a worker is alive it is told too, by the
    /// message returned.
    pub fn set_volume(&mut self, volume_percent: u8) -> (r: Option<PlayerMsg>)
        ensures
            final(self)@ == (PlayerState { volume_percent, ..old(self)@ }),
            r == if old(self)@.worker_alive { Some(PlayerMsg::SetVolume(volume_percent)) } else { None },
    {
        self.volume_percent = volume_percent;
        if self.worker_alive {
            Some(PlayerMsg::SetVolume(volume_percent))
        } else {
            None
        }
    }

    /// Stores the output device. Returns the station to restart on it, when
    /// one is playing: the caller stops the player and plays it again.
    pub fn set_output_device(&mut self, idx: usize) -> (r: Option<Station>)
        ensures
            final(self)@ == (PlayerState { device_idx: idx, ..old(self)@ }),
            r == old(self)@.station,
    {
        self.alsa_device_idx = idx;
        match &self.curr_station {
            Some(station) => Some(station.copy()),
            None => None,
        }
    }

    /// Ends the current session. Fails with `NotPlaying` when no worker is
    /// alive. On success the result is the message to send on the old control
    /// channel (none when `send_signal` is false; a failed send is no error),
    /// and the caller replaces both channel pairs.
    pub fn stop(&mut self, send_signal: bool) -> (r: Result<Option<PlayerMsg>, Error>)
        ensures
            (final(self)@, r) == stop_spec(old(self)@, send_signal),
            old(self)@.wf() ==> final(self)@.wf(),
            old(self)@.worker_alive ==> r is Ok,
            !old(self)@.worker_alive ==> r == Err::<Option<PlayerMsg>, Error>(Error::NotPlaying),
    {
        if self.worker_alive {
            self.worker_alive = false;
            self.curr_station = None;
            Ok(if send_signal { Some(PlayerMsg::Stop) } else { None })
        } else {
            Err(Error::NotPlaying)
        }
    }

    /// Starts a session for `station`: a live worker is stopped first, then a
    /// new worker is handed its own copies of the station, the volume and the
    /// device. The caller spawns it and then waits with `connect_poll`.
    pub fn play(&mut self, station: Station) -> (r: PlayStart)
        ensures
            (final(self)@, r) == play_spec(old(self)@, station),
            final(self)@.wf(),
            final(self)@.worker_alive,
    {
        let stop_previous = if self.worker_alive {
            match self.stop(true) {
                Ok(msg) => msg,
                Err(_) => None,
            }
        } else {
            None
        };
        self.worker_alive = true;
        self.curr_station = None;
        PlayStart {
            stop_previous,
            job: WorkerJob { station, volume_percent: self.volume_percent, device_idx: self.alsa_device_idx },
        }
    }

    /// One look at the connect outcome, after `polls` poll intervals of
    /// waiting for `station`. A success makes the station current; a failure
    /// stops the player (without a signal) and is returned; with no outcome,
    /// the wait ends in `StreamConnectTimeout` exactly once the timeout has
    /// elapsed. A worker that connects after that is not waited for.
    pub fn connect_poll(&mut self, station: Station, polls: u32, outcome: ConnectOutcome) -> (r: WaitStep)
        requires
            old(self)@.worker_alive,
        ensures
            (final(self)@, r) == connect_poll_spec(old(self)@, station, polls, outcome),
            old(self)@.wf() ==> final(self)@.wf(),
    {
        match outcome {
            ConnectOutcome::Connected => {
                self.curr_station = Some(station);
                WaitStep::Done(Ok(()))
            },
            ConnectOutcome::Failed(e) => {
                let _ = self.stop(false);
                WaitStep::Done(Err(e))
            },
            ConnectOutcome::Pending => {
                assert(polls as u64 * CONNECT_POLL_INTERVAL_MS as u64 <= 0xffff_ffff * 500) by (nonlinear_arith)
                    requires polls <= 0xffff_ffff, CONNECT_POLL_INTERVAL_MS == 500;
                let elapsed_ms: u64 = polls as u64 * CONNECT_POLL_INTERVAL_MS as u64;
                if elapsed_ms >= STREAM_CONNECT_TIMEOUT_SECS as u64 * 1000 {
                    WaitStep::Done(Err(Error::StreamConnectTimeout(STREAM_CONNECT_TIMEOUT_SECS)))
                } else {
                    WaitStep::KeepWaiting
                }
            },
        }
    }
}

} // verus!
