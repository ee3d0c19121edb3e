//! Laws of the playback lifecycle, over the transition functions that the
//! control object's and the worker's methods are specified by.
use vstd::prelude::*;

use crate::config::Station;
use crate::error::Error;
use crate::player::{
    connect_poll_spec, curr_station_id_spec, idle, play_spec, stop_spec, ConnectOutcome, PlayerMsg, PlayerState,
    WaitStep, CONNECT_POLL_INTERVAL_MS, STREAM_CONNECT_TIMEOUT_SECS,
};
use crate::ramp::{gain_distance, is_ramp};
use crate::worker::{on_connect_spec, on_poll_spec, ControlPoll, Worker, WorkerAction, WorkerPhase};

verus! {

/// One event that a worker reacts to.
pub enum WorkerEvent {
    /// The outcome of a connect attempt.
    Connect(Result<(), Error>),
    /// One poll while streaming.
    Poll { buffer_empty: bool, control: ControlPoll },
}

/// The worker's reaction to one event.
pub open spec fn worker_step(w: Worker, e: WorkerEvent) -> (Worker, WorkerAction) {
    match e {
        WorkerEvent::Connect(outcome) => on_connect_spec(w, outcome),
        WorkerEvent::Poll { buffer_empty, control } => on_poll_spec(w, buffer_empty, control),
    }
}

/// The action sends the session-ended signal.
pub open spec fn signals(a: WorkerAction) -> bool {
    a is SignalSessionEnded || a is ReportFailureAndSignal
}

/// A connect attempt failed.
pub open spec fn is_failed_connect(e: WorkerEvent) -> bool {
    e matches WorkerEvent::Connect(Err(_))
}

/// How many session-ended signals a worker sends while it reacts to `events`
/// in order.
pub open spec fn signals_sent(w: Worker, events: Seq<WorkerEvent>) -> nat
    decreases events.len(),
{
    if events.len() == 0 {
        0
    } else {
        let (next, action) = worker_step(w, events[0]);
        (if signals(action) { 1nat } else { 0nat }) + signals_sent(next, events.drop_first())
    }
}

/// After any `stop`, successful or not, the next `stop` fails with
/// `NotPlaying`; in particular after `play`, whatever its connect wait
/// decided, and a `stop`.
pub proof fn lemma_stop_leaves_nothing_to_stop(
    s: PlayerState,
    station: Station,
    polls: u32,
    outcome: ConnectOutcome,
    first_signal: bool,
    second_signal: bool,
)
    ensures
        stop_spec(stop_spec(s, first_signal).0, second_signal).1 == Err::<Option<PlayerMsg>, Error>(Error::NotPlaying),
        ({
            let waited = connect_poll_spec(play_spec(s, station).0, station, polls, outcome).0;
            stop_spec(stop_spec(waited, first_signal).0, second_signal).1
                == Err::<Option<PlayerMsg>, Error>(Error::NotPlaying)
        }),
{
}

/// While no outcome has come, the connect wait ends in
/// `StreamConnectTimeout` with the configured number of seconds exactly when
/// the poll intervals waited add up to that many seconds: never earlier, and
/// at the first poll that reaches it.
pub proof fn lemma_connect_times_out_on_time(s: PlayerState, station: Station, polls: u32)
    ensures
        ({
            let (next, step) = connect_poll_spec(s, station, polls, ConnectOutcome::Pending);
            let waited_ms = polls as int * CONNECT_POLL_INTERVAL_MS as int;
            let timeout_ms = STREAM_CONNECT_TIMEOUT_SECS as int * 1000;
            &&& next == s
            &&& (step == WaitStep::Done(Err(Error::StreamConnectTimeout(STREAM_CONNECT_TIMEOUT_SECS))))
                <==> waited_ms >= timeout_ms
            &&& (step == WaitStep::KeepWaiting) <==> waited_ms < timeout_ms
            &&& polls == 2 * STREAM_CONNECT_TIMEOUT_SECS ==> step is Done
            &&& polls + 1 == 2 * STREAM_CONNECT_TIMEOUT_SECS ==> step is KeepWaiting
        }),
{
}

/// `play` on any state does what `stop` followed by `play` does: the same
/// new state and the same worker, and a live worker is sent the `Stop` that
/// `stop` would send it, so no earlier worker is left running.
pub proof fn lemma_play_is_stop_then_play(s: PlayerState, station: Station)
    ensures
        play_spec(s, station).0 == play_spec(stop_spec(s, true).0, station).0,
        play_spec(s, station).1.job == play_spec(stop_spec(s, true).0, station).1.job,
        play_spec(s, station).1.stop_previous == match stop_spec(s, true).1 {
            Ok(msg) => msg,
            Err(_) => None,
        },
        play_spec(stop_spec(s, true).0, station).1.stop_previous is None,
        s.worker_alive ==> play_spec(s, station).1.stop_previous == Some(PlayerMsg::Stop),
{
}

/// A worker whose station restarts automatically sends no session-ended
/// signal while its connects succeed, whatever else it sees: when its source
/// ends it reconnects. The control object, hearing no signal, keeps its state
/// and its station id.
pub proof fn lemma_auto_restart_never_ends_session(w: Worker, events: Seq<WorkerEvent>, s: PlayerState)
    requires
        w.auto_restart,
        forall|i: int| 0 <= i < events.len() ==> !is_failed_connect(#[trigger] events[i]),
    ensures
        signals_sent(w, events) == 0,
        w.phase == WorkerPhase::Streaming ==> forall|control: ControlPoll|
            #[trigger] on_poll_spec(w, true, control) == (Worker { phase: WorkerPhase::Connecting, ..w }, WorkerAction::Reconnect),
        curr_station_id_spec(s, false).0 == s,
        curr_station_id_spec(s, false).1 == match s.station {
            Some(st) => Some(st.id@),
            None => None,
        },
    decreases events.len(),
{
    if events.len() > 0 {
        let next = worker_step(w, events[0]).0;
        assert(!is_failed_connect(events[0]));
        assert forall|i: int| 0 <= i < events.drop_first().len() implies !is_failed_connect(
            #[trigger] events.drop_first()[i],
        ) by {
            assert(events.drop_first()[i] == events[i + 1]);
        }
        lemma_auto_restart_never_ends_session(next, events.drop_first(), s);
    }
}

/// Every worker sends the session-ended signal at most once, whatever
/// events it sees: each action that signals also ends the worker.
pub proof fn lemma_signal_at_most_once(w: Worker, events: Seq<WorkerEvent>)
    ensures
        signals_sent(w, events) <= 1,
    decreases events.len(),
{
    if events.len() > 0 {
        let (next, action) = worker_step(w, events[0]);
        if signals(action) {
            lemma_terminated_is_silent(next, events.drop_first());
        } else {
            lemma_signal_at_most_once(next, events.drop_first());
        }
    }
}

/// While a worker streams with audio buffered, a volume message makes it
/// ramp to that volume; and a ramp from any gain to it moves one hundredth at
/// a time towards it, never passes it, and ends on it.
pub proof fn lemma_volume_message_ramps_to_target(w: Worker, v: u8, from: u8, steps: Seq<u8>)
    requires
        w.phase == WorkerPhase::Streaming,
        is_ramp(from, v, steps),
    ensures
        on_poll_spec(w, false, ControlPoll::Received(PlayerMsg::SetVolume(v))) == (w, WorkerAction::RampTo(v)),
        from != v ==> steps.last() == v,
        forall|i: int| 0 <= i < steps.len() ==> if from <= v { from < #[trigger] steps[i] <= v } else { v <= #[trigger] steps[i] < from },
        forall|i: int| 0 < i < steps.len() ==> gain_distance(#[trigger] steps[i], v) + 1 == gain_distance(steps[i - 1], v),
{
    if from != v {
        let last = steps.len() - 1;
        assert(gain_distance(steps[last], v) == 0);
    }
    assert forall|i: int| 0 < i < steps.len() implies gain_distance(#[trigger] steps[i], v) + 1 == gain_distance(steps[i - 1], v) by {
        assert(gain_distance(steps[i - 1], v) == gain_distance(from, v) - (i - 1) - 1);
    }
}

/// A terminated worker sends nothing more.
proof fn lemma_terminated_is_silent(w: Worker, events: Seq<WorkerEvent>)
    requires
        w.phase == WorkerPhase::Terminated,
    ensures
        signals_sent(w, events) == 0,
    decreases events.len(),
{
    if events.len() > 0 {
        lemma_terminated_is_silent(worker_step(w, events[0]).0, events.drop_first());
    }
}

/// When the source of a station without automatic restart ends, its worker
/// sends exactly one session-ended signal, whatever events follow. The control
/// object that sees it is left with no station and nothing to stop.
pub proof fn lemma_source_end_signals_once(
    w: Worker,
    control: ControlPoll,
    events: Seq<WorkerEvent>,
    s: PlayerState,
    send_signal: bool,
)
    requires
        !w.auto_restart,
        w.phase == WorkerPhase::Streaming,
        s.worker_alive,
    ensures
        signals_sent(w, seq![WorkerEvent::Poll { buffer_empty: true, control }] + events) == 1,
        curr_station_id_spec(s, true) == (idle(s), None::<Seq<char>>),
        stop_spec(curr_station_id_spec(s, true).0, send_signal).1 == Err::<Option<PlayerMsg>, Error>(
            Error::NotPlaying,
        ),
{
    let all = seq![WorkerEvent::Poll { buffer_empty: true, control }] + events;
    let next = worker_step(w, all[0]).0;
    assert(all.drop_first() =~= events);
    lemma_terminated_is_silent(next, events);
}

} // verus!
