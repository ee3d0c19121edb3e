use radio::config::Station;
use radio::error::Error;
use radio::player::{ConnectOutcome, Player, PlayerMsg, WaitStep, STREAM_CONNECT_TIMEOUT_SECS};
use radio::ramp::ramp_steps;
use radio::worker::{ControlPoll, Worker, WorkerAction, WorkerPhase};

fn station(id: &str, auto_restart: bool) -> Station {
    Station {
        id: id.to_string(),
        name: format!("{id} radio"),
        description: String::new(),
        url: "http://x/stream.mp3".to_string(),
        image_file: format!("{id}.png"),
        auto_restart,
        auto_start: false,
    }
}

fn connected(player: &mut Player, st: &Station) {
    let start = player.play(st.clone());
    assert_eq!(start.stop_previous, None);
    let step = player.connect_poll(st.clone(), 1, ConnectOutcome::Connected);
    assert!(matches!(step, WaitStep::Done(Ok(()))));
}

#[test]
fn jazz_session_from_play_to_stop() {
    let jazz = station("jazz", false);
    let mut player = Player::new(50, 0).unwrap();
    let start = player.play(jazz.clone());
    assert_eq!(start.stop_previous, None);
    assert_eq!(start.job.volume_percent, 50);
    assert_eq!(start.job.device_idx, 0);
    assert_eq!(start.job.station, jazz);
    assert!(matches!(player.connect_poll(jazz.clone(), 1, ConnectOutcome::Connected), WaitStep::Done(Ok(()))));
    assert_eq!(player.curr_station_id(false), Some("jazz".to_string()));

    assert_eq!(player.set_volume(80), Some(PlayerMsg::SetVolume(80)));
    assert_eq!(player.volume_percent(), 80);
    let ramp = ramp_steps(50, 80);
    assert_eq!(ramp, (51..=80).collect::<Vec<u8>>());

    assert_eq!(player.stop(true), Ok(Some(PlayerMsg::Stop)));
    assert_eq!(player.curr_station_id(false), None);
}

#[test]
fn stop_right_after_play_leaves_nothing_to_stop() {
    let mut player = Player::new(30, 1).unwrap();
    let st = station("rock", true);
    connected(&mut player, &st);
    assert_eq!(player.stop(true), Ok(Some(PlayerMsg::Stop)));
    assert_eq!(player.stop(true), Err(Error::NotPlaying));
    assert_eq!(player.stop(false), Err(Error::NotPlaying));
    assert!(!player.is_playing());
}

#[test]
fn stop_without_signal_sends_nothing() {
    let mut player = Player::new(30, 1).unwrap();
    connected(&mut player, &station("rock", true));
    assert_eq!(player.stop(false), Ok(None));
}

#[test]
fn stop_when_idle_is_not_playing() {
    let mut player = Player::new(100, 0).unwrap();
    let err = player.stop(true).unwrap_err();
    assert_eq!(err, Error::NotPlaying);
    assert!(err.is_client_error());
    assert!(!Error::StreamConnectTimeout(10).is_client_error());
    assert!(!Error::Reqwest("refused".to_string()).is_client_error());
}

#[test]
fn connect_wait_times_out_after_the_timeout_and_not_before() {
    let st = station("slow", false);
    let mut player = Player::new(40, 0).unwrap();
    player.play(st.clone());
    let polls_at_timeout = STREAM_CONNECT_TIMEOUT_SECS as u32 * 2;
    for polls in 0..polls_at_timeout {
        assert!(matches!(player.connect_poll(st.clone(), polls, ConnectOutcome::Pending), WaitStep::KeepWaiting));
    }
    match player.connect_poll(st.clone(), polls_at_timeout, ConnectOutcome::Pending) {
        WaitStep::Done(Err(Error::StreamConnectTimeout(secs))) => assert_eq!(secs, 10),
        _ => panic!("expected a timeout"),
    }
    assert_eq!(player.curr_station_id(false), None);
    assert!(player.is_playing());
}

#[test]
fn connect_failure_is_returned_and_stops_the_player() {
    let st = station("broken", false);
    let mut player = Player::new(40, 0).unwrap();
    player.play(st.clone());
    match player.connect_poll(st, 3, ConnectOutcome::Failed(Error::Reqwest("refused".to_string()))) {
        WaitStep::Done(Err(Error::Reqwest(msg))) => assert_eq!(msg, "refused"),
        _ => panic!("expected the connect error"),
    }
    assert!(!player.is_playing());
    assert_eq!(player.stop(true), Err(Error::NotPlaying));
}

#[test]
fn playing_twice_stops_the_first_worker() {
    let a = station("a", false);
    let mut player = Player::new(60, 2).unwrap();
    connected(&mut player, &a);
    let second = player.play(a.clone());
    assert_eq!(second.stop_previous, Some(PlayerMsg::Stop));
    assert_eq!(second.job.station, a);
    assert_eq!(second.job.volume_percent, 60);
    assert_eq!(player.curr_station_id(false), None);

    let mut other = Player::new(60, 2).unwrap();
    connected(&mut other, &a);
    assert_eq!(other.stop(true), Ok(Some(PlayerMsg::Stop)));
    let fresh = other.play(a.clone());
    assert_eq!(fresh.stop_previous, None);
    assert_eq!(fresh.job.station, second.job.station);
    assert_eq!(fresh.job.device_idx, second.job.device_idx);
}

#[test]
fn volume_while_idle_is_only_stored() {
    let mut player = Player::new(10, 0).unwrap();
    assert_eq!(player.set_volume(90), None);
    assert_eq!(player.volume_percent(), 90);
    let start = player.play(station("x", false));
    assert_eq!(start.job.volume_percent, 90);
}

#[test]
fn switching_device_restarts_the_current_station() {
    let st = station("news", true);
    let mut player = Player::new(70, 0).unwrap();
    assert_eq!(player.set_output_device(3), None);
    assert_eq!(player.device_idx(), 3);
    connected(&mut player, &st);
    assert_eq!(player.set_output_device(1), Some(st.clone()));
    assert_eq!(player.device_idx(), 1);
    assert_eq!(player.curr_station_id(false), Some("news".to_string()));
}

#[test]
fn auto_restart_reconnects_without_a_signal() {
    let st = station("loop", true);
    let mut player = Player::new(50, 0).unwrap();
    let start = player.play(st.clone());
    player.connect_poll(st.clone(), 1, ConnectOutcome::Connected);
    let mut worker = Worker::new(&start.job);
    assert_eq!(worker.on_connect(Ok(())), WorkerAction::FadeInAndReport(50));
    assert_eq!(worker.on_poll(false, ControlPoll::Empty), WorkerAction::Sleep);
    assert_eq!(worker.on_poll(true, ControlPoll::Empty), WorkerAction::Reconnect);
    assert_eq!(worker.phase, WorkerPhase::Connecting);
    assert_eq!(worker.on_connect(Ok(())), WorkerAction::FadeInAndReport(50));
    assert_eq!(player.curr_station_id(false), Some("loop".to_string()));
    assert_eq!(player.curr_station_id(false), Some("loop".to_string()));
}

#[test]
fn source_end_without_auto_restart_signals_once() {
    let st = station("once", false);
    let mut player = Player::new(50, 0).unwrap();
    let start = player.play(st.clone());
    player.connect_poll(st.clone(), 1, ConnectOutcome::Connected);
    let mut worker = Worker::new(&start.job);
    worker.on_connect(Ok(()));
    assert_eq!(worker.on_poll(true, ControlPoll::Received(PlayerMsg::Stop)), WorkerAction::SignalSessionEnded);
    assert!(worker.is_terminated());
    assert_eq!(worker.on_poll(true, ControlPoll::Empty), WorkerAction::Ignore);
    assert_eq!(worker.on_connect(Ok(())), WorkerAction::Ignore);
    assert_eq!(player.curr_station_id(true), None);
    assert_eq!(player.curr_station_id(false), None);
    assert_eq!(player.stop(true), Err(Error::NotPlaying));
}

#[test]
fn worker_follows_control_messages() {
    let start = Player::new(20, 0).unwrap().play(station("w", false));
    let mut worker = Worker::new(&start.job);
    assert_eq!(worker.on_poll(false, ControlPoll::Empty), WorkerAction::Ignore);
    worker.on_connect(Ok(()));
    assert_eq!(worker.on_poll(false, ControlPoll::Received(PlayerMsg::SetVolume(35))), WorkerAction::RampTo(35));
    assert_eq!(worker.phase, WorkerPhase::Streaming);
    assert_eq!(worker.on_poll(false, ControlPoll::Disconnected), WorkerAction::FadeOutAndExit);
    assert!(worker.is_terminated());

    let mut stopped = Worker::new(&start.job);
    stopped.on_connect(Ok(()));
    assert_eq!(stopped.on_poll(false, ControlPoll::Received(PlayerMsg::Stop)), WorkerAction::FadeOutAndExit);
}

#[test]
fn failed_reconnect_ends_the_session_with_a_signal() {
    let st = station("flaky", true);
    let mut player = Player::new(50, 0).unwrap();
    let start = player.play(st.clone());
    player.connect_poll(st.clone(), 1, ConnectOutcome::Connected);
    let mut worker = Worker::new(&start.job);
    worker.on_connect(Ok(()));
    assert_eq!(worker.on_poll(true, ControlPoll::Empty), WorkerAction::Reconnect);
    let refused = Error::Reqwest("refused".to_string());
    assert_eq!(worker.on_connect(Err(refused.clone())), WorkerAction::ReportFailureAndSignal(refused));
    assert!(worker.is_terminated());
    assert_eq!(player.curr_station_id(true), None);
    assert_eq!(player.set_volume(20), None);
    assert_eq!(player.stop(true), Err(Error::NotPlaying));
}

#[test]
fn late_failure_after_a_timeout_is_signalled() {
    let st = station("late", false);
    let mut player = Player::new(50, 0).unwrap();
    player.play(st.clone());
    assert!(matches!(player.connect_poll(st.clone(), 20, ConnectOutcome::Pending), WaitStep::Done(Err(_))));
    assert!(player.is_playing());
    assert_eq!(player.curr_station_id(true), None);
    assert!(!player.is_playing());
}

#[test]
fn worker_reports_a_failed_connect_and_ends() {
    let start = Player::new(20, 0).unwrap().play(station("w", true));
    let mut worker = Worker::new(&start.job);
    assert_eq!(
        worker.on_connect(Err(Error::NoSuchDevice)),
        WorkerAction::ReportFailureAndSignal(Error::NoSuchDevice)
    );
    assert!(worker.is_terminated());
}

#[test]
fn ramps_move_one_hundredth_at_a_time() {
    assert_eq!(ramp_steps(40, 40), Vec::<u8>::new());
    assert_eq!(ramp_steps(0, 3), vec![1, 2, 3]);
    assert_eq!(ramp_steps(80, 50), (50..80).rev().collect::<Vec<u8>>());
    let down = ramp_steps(100, 0);
    assert_eq!(down.len(), 100);
    assert_eq!(down.first(), Some(&99));
    assert_eq!(down.last(), Some(&0));
    for v in 0..=100u8 {
        let up = ramp_steps(0, v);
        assert_eq!(up.len(), v as usize);
        assert!(up.windows(2).all(|w| w[1] == w[0] + 1));
        assert!(up.iter().all(|g| *g <= v));
    }
}
