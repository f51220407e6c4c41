use std::sync::mpsc::channel;

use yet_another_bg3_mod_loader::process_watcher::event_sink::EventSink;
use yet_another_bg3_mod_loader::process_watcher::watcher::{untimed, wait_outcome, WaitOutcome, INFINITE, WAIT_OBJECT_0, WAIT_TIMEOUT};
use yet_another_bg3_mod_loader::process_watcher::{
    next_signal, stop_outcome, RunAction, RunEvent, RunPhase, StopStep, WatchRun,
    EnumStep, PidOutcome, PollSignal, ProcessWatcher, ProcessWatcherStopToken, StopError, Timeout,
};
use yet_another_bg3_mod_loader::wide::encode_wide;
use yet_another_bg3_mod_loader::{has_tray, launch, watch_settings, Launch, RunType};
use yet_another_bg3_mod_loader::cli::Args;

const BG3: &str = r"C:\Games\Baldurs Gate 3\bin\bg3.exe";
const BG3_DX11: &str = r"C:\Games\Baldurs Gate 3\bin\bg3_dx11.exe";

fn watcher(oneshot: bool, timeout: Timeout) -> ProcessWatcher {
    ProcessWatcher::new(vec![BG3.to_string(), BG3_DX11.to_string()], 1000, timeout, oneshot)
}

#[test]
fn new_pids_are_reported_once() {
    let mut w = watcher(false, Timeout::Never);
    let mut buf = Vec::new();
    w.process_pids(&[4, 8, 12], &mut buf);
    assert_eq!(buf, vec![4, 8, 12]);
    // same snapshot again: nothing new
    w.process_pids(&[4, 8, 12], &mut buf);
    assert!(buf.is_empty());
    // 8 exited, 16 and 20 started
    w.process_pids(&[4, 16, 12, 20], &mut buf);
    assert_eq!(buf, vec![16, 20]);
    // 8 comes back: it is new again, since it was not in the previous snapshot
    w.process_pids(&[8, 4], &mut buf);
    assert_eq!(buf, vec![8]);
}

#[test]
fn duplicate_pids_in_a_snapshot_are_reported_once() {
    let mut w = watcher(false, Timeout::Never);
    let mut buf = vec![99];
    w.process_pids(&[7, 7, 3, 7], &mut buf);
    assert_eq!(buf, vec![7, 3]);
}

#[test]
fn watched_paths_match_exactly() {
    let w = watcher(true, Timeout::Never);
    assert!(w.is_watched(&encode_wide(BG3)));
    assert!(w.is_watched(&encode_wide(BG3_DX11)));
    assert!(!w.is_watched(&encode_wide(r"C:\Games\Baldurs Gate 3\bin\BG3.EXE")));
    assert!(!w.is_watched(&[]));
}

#[test]
fn new_process_outcomes() {
    let once = watcher(true, Timeout::Never);
    let many = watcher(false, Timeout::Never);
    let path = encode_wide(BG3);
    let other = encode_wide(r"C:\Windows\notepad.exe");
    assert_eq!(once.check_new_process(Some(&path)), PidOutcome::ReportAndStop);
    assert_eq!(many.check_new_process(Some(&path)), PidOutcome::Report);
    assert_eq!(many.check_new_process(Some(&other)), PidOutcome::Ignore);
    assert_eq!(many.check_new_process(None), PidOutcome::Ignore);
}

#[test]
fn time_limits() {
    let w = watcher(true, Timeout::Duration(10_000));
    assert!(!w.timed_out(9_999));
    assert!(w.timed_out(10_000));
    let forever = watcher(false, Timeout::Never);
    assert!(!forever.timed_out(u64::MAX));
    assert_eq!(w.timeout(), Timeout::Duration(10_000));
    assert_eq!(w.polling_rate_ms(), 1000);
    assert!(w.oneshot());
}

#[test]
fn process_list_buffer_steps() {
    // the list filled the buffer exactly: it may be cut short, so grow
    assert_eq!(ProcessWatcher::enum_step(1024, 4096), EnumStep::Grow(2048));
    // otherwise the byte count gives the number of pids
    assert_eq!(ProcessWatcher::enum_step(1024, 400), EnumStep::Snapshot(100));
    assert_eq!(ProcessWatcher::enum_step(1024, 0), EnumStep::Snapshot(0));
}

#[test]
fn stop_conditions() {
    assert!(ProcessWatcher::stops_after(PollSignal::Stop));
    assert!(ProcessWatcher::stops_after(PollSignal::Disconnected));
    assert!(!ProcessWatcher::stops_after(PollSignal::Elapsed));
}

#[test]
fn stop_token_signals_thread_then_waiter() {
    let (thread_tx, thread_rx) = channel();
    let (wait_tx, wait_rx) = channel();
    let token = ProcessWatcherStopToken::new(thread_tx, wait_tx);
    assert_eq!(token.stop(), Ok(()));
    assert!(thread_rx.try_recv().is_ok());
    assert!(wait_rx.try_recv().is_ok());
}

#[test]
fn stop_token_reports_gone_receivers() {
    let (thread_tx, thread_rx) = channel();
    let (wait_tx, wait_rx) = channel();
    let token = ProcessWatcherStopToken::new(thread_tx, wait_tx);
    drop(thread_rx);
    assert_eq!(token.stop(), Err(StopError::WatcherGone));
    // the waiter is not signalled when the thread could not be
    assert!(wait_rx.try_recv().is_err());

    let (thread_tx, _thread_rx) = channel();
    let (wait_tx, wait_rx) = channel();
    let token = ProcessWatcherStopToken::new(thread_tx, wait_tx);
    drop(wait_rx);
    assert_eq!(token.stop(), Err(StopError::WaiterGone));
}

#[test]
fn event_sink_matches_watched_executables() {
    let sink = EventSink::new(&[BG3.to_string(), BG3_DX11.to_string()]);
    assert!(sink.is_process(Some(&encode_wide(BG3))));
    assert!(sink.is_process(Some(&encode_wide(BG3_DX11))));
    assert!(!sink.is_process(Some(&encode_wide(r"C:\other.exe"))));
    assert!(!sink.is_process(Some(&[])));
    assert!(!sink.is_process(None));
}

#[test]
fn event_sink_recognises_creation_events() {
    assert!(EventSink::is_creation_event(Some(&encode_wide("__InstanceCreationEvent"))));
    assert!(!EventSink::is_creation_event(Some(&encode_wide("__InstanceDeletionEvent"))));
    assert!(!EventSink::is_creation_event(None));
}

#[test]
fn wmi_wait_outcomes() {
    assert_eq!(wait_outcome(WAIT_TIMEOUT, false), WaitOutcome::ReportTimeout);
    assert_eq!(wait_outcome(WAIT_TIMEOUT, true), WaitOutcome::Finished);
    assert_eq!(wait_outcome(WAIT_OBJECT_0, false), WaitOutcome::Finished);
    assert_eq!(wait_outcome(0xFFFF_FFFF, false), WaitOutcome::Failed);
    assert_eq!(untimed(), INFINITE);
}

#[test]
fn tool_settings() {
    let w = watch_settings(RunType::Watcher);
    assert_eq!((w.polling_rate_ms, w.timeout, w.oneshot), (2000, Timeout::Never, false));
    let i = watch_settings(RunType::Injector);
    assert_eq!((i.polling_rate_ms, i.timeout, i.oneshot), (1000, Timeout::Duration(10_000), true));
    assert!(has_tray(RunType::Watcher));
    assert!(!has_tray(RunType::Injector));
}

#[test]
fn command_line_launch() {
    let a = |help, version| Args { cli: false, help, version };
    assert_eq!(launch(&a(true, true)), Launch::PrintHelp);
    assert_eq!(launch(&a(false, true)), Launch::PrintVersion);
    assert_eq!(launch(&a(false, false)), Launch::Run);
}

#[test]
fn stop_outcomes() {
    assert_eq!(stop_outcome(false, false), Err(StopError::WatcherGone));
    assert_eq!(stop_outcome(false, true), Err(StopError::WatcherGone));
    assert_eq!(stop_outcome(true, false), Err(StopError::WaiterGone));
    assert_eq!(stop_outcome(true, true), Ok(()));
}

fn image_path(pid: u32) -> Option<Vec<u16>> {
    match pid {
        10 => Some(encode_wide(BG3)),
        11 => Some(encode_wide(r"C:\Windows\notepad.exe")),
        12 => Some(encode_wide(BG3_DX11)),
        _ => None,
    }
}

#[test]
fn scan_reports_each_game_once_in_order() {
    let mut w = watcher(false, Timeout::Never);
    let mut new_pids = Vec::new();
    let (reported, stop) = w.scan(&[9, 12, 11, 10, 12], &mut new_pids, &image_path);
    assert_eq!(new_pids, vec![9, 12, 11, 10]);
    assert_eq!(reported, vec![12, 10]);
    assert!(!stop);
    // the same processes are not reported by the next round
    let (reported, stop) = w.scan(&[9, 10, 11, 12], &mut new_pids, &image_path);
    assert!(reported.is_empty() && !stop);
    // a game that was gone for a round and started again is reported again
    let (reported, _) = w.scan(&[9, 11, 12], &mut new_pids, &image_path);
    assert!(reported.is_empty());
    let (reported, _) = w.scan(&[9, 10, 11, 12], &mut new_pids, &image_path);
    assert_eq!(reported, vec![10]);
}

#[test]
fn oneshot_scan_reports_the_first_game_only() {
    let mut w = watcher(true, Timeout::Duration(10_000));
    let mut new_pids = Vec::new();
    let (reported, stop) = w.scan(&[11, 12, 10], &mut new_pids, &image_path);
    assert_eq!(reported, vec![12]);
    assert!(stop);
    assert!(!w.timed_out(9_999));
    assert!(w.timed_out(10_000));
    assert!(!watcher(true, Timeout::Never).timed_out(u64::MAX));
}

#[test]
fn stop_steps_and_targets() {
    assert_eq!(next_signal(None), StopStep::SignalThread);
    assert_eq!(next_signal(Some(true)), StopStep::SignalWaiter);
    assert_eq!(next_signal(Some(false)), StopStep::Finish);
    let (thread_tx, thread_rx) = channel();
    let (wait_tx, wait_rx) = channel();
    let token = ProcessWatcherStopToken::new(thread_tx, wait_tx);
    token.stop_target(StopStep::SignalThread).send(()).unwrap();
    assert!(thread_rx.try_recv().is_ok() && wait_rx.try_recv().is_err());
    token.stop_target(StopStep::SignalWaiter).send(()).unwrap();
    assert!(wait_rx.try_recv().is_ok() && thread_rx.try_recv().is_err());
}

#[test]
fn watcher_run_reports_until_stopped() {
    let mut run = WatchRun::new(watcher(false, Timeout::Never));
    assert!(matches!(run.step(RunEvent::RoundBegins(0), &image_path), RunAction::List));
    match run.step(RunEvent::Listed(vec![9, 10, 11, 12]), &image_path) {
        RunAction::Report { pids, finish } => {
            assert_eq!(pids, vec![10, 12]);
            assert!(!finish);
        }
        other => panic!("unexpected {other:?}"),
    }
    assert!(matches!(run.step(RunEvent::Waited(PollSignal::Elapsed), &image_path), RunAction::NextRound));
    assert!(matches!(run.step(RunEvent::RoundBegins(u64::MAX), &image_path), RunAction::List));
    match run.step(RunEvent::Listed(vec![9, 10, 11, 12]), &image_path) {
        RunAction::Report { pids, finish } => assert!(pids.is_empty() && !finish),
        other => panic!("unexpected {other:?}"),
    }
    assert!(matches!(run.step(RunEvent::Waited(PollSignal::Stop), &image_path), RunAction::Finish));
    assert_eq!(run.phase(), RunPhase::Done);
    // nothing more happens after the end
    assert!(matches!(run.step(RunEvent::RoundBegins(0), &image_path), RunAction::Finish));
}

#[test]
fn oneshot_run_reports_once_and_wakes_the_waiter() {
    let mut run = WatchRun::new(watcher(true, Timeout::Duration(10_000)));
    assert!(matches!(run.step(RunEvent::RoundBegins(5), &image_path), RunAction::List));
    match run.step(RunEvent::Listed(vec![11]), &image_path) {
        RunAction::Report { pids, finish } => assert!(pids.is_empty() && !finish),
        other => panic!("unexpected {other:?}"),
    }
    assert!(matches!(run.step(RunEvent::Waited(PollSignal::Elapsed), &image_path), RunAction::NextRound));
    assert!(matches!(run.step(RunEvent::RoundBegins(6), &image_path), RunAction::List));
    match run.step(RunEvent::Listed(vec![11, 12, 10]), &image_path) {
        RunAction::Report { pids, finish } => {
            assert_eq!(pids, vec![12]);
            assert!(finish);
        }
        other => panic!("unexpected {other:?}"),
    }
    assert_eq!(run.phase(), RunPhase::Done);
    assert!(matches!(run.step(RunEvent::Listed(vec![13]), &image_path), RunAction::Finish));
}

#[test]
fn run_times_out_once() {
    let mut run = WatchRun::new(watcher(true, Timeout::Duration(10_000)));
    assert!(matches!(run.step(RunEvent::RoundBegins(10_000), &image_path), RunAction::Timeout { wake_waiter: true }));
    assert!(matches!(run.step(RunEvent::RoundBegins(20_000), &image_path), RunAction::Finish));
    let mut run = WatchRun::new(watcher(false, Timeout::Duration(10)));
    assert!(matches!(run.step(RunEvent::RoundBegins(10), &image_path), RunAction::Timeout { wake_waiter: false }));
    // an event out of turn ends the run
    let mut run = WatchRun::new(watcher(false, Timeout::Never));
    assert!(matches!(run.step(RunEvent::Waited(PollSignal::Elapsed), &image_path), RunAction::Finish));
    assert_eq!(run.phase(), RunPhase::Done);
}
