use sensor_hub::shutdown::{ShutdownListener, Signal, SignalAction};
use sensor_hub::switch::{
    reader_step, writer_step, Level, PollOutcome, ReaderAction, SwitchEvent, WriterAction,
};

#[test]
fn reader_forwards_edges() {
    assert_eq!(reader_step(PollOutcome::Edge(Level::High), false), ReaderAction::Send(Level::High));
    assert_eq!(reader_step(PollOutcome::Edge(Level::Low), true), ReaderAction::Send(Level::Low));
}

#[test]
fn reader_republishes_on_timeout() {
    assert_eq!(reader_step(PollOutcome::TimedOut, false), ReaderAction::SendCurrentLevel);
}

#[test]
fn reader_quits_on_timeout_after_cancellation() {
    assert_eq!(reader_step(PollOutcome::TimedOut, true), ReaderAction::Quit);
}

#[test]
fn reader_quits_on_failed_wait() {
    assert_eq!(reader_step(PollOutcome::Failed, false), ReaderAction::Quit);
}

#[test]
fn writer_mirrors_levels_and_exits_on_quit() {
    assert_eq!(writer_step(SwitchEvent::Level(Level::High)), WriterAction::Drive(Level::High));
    assert_eq!(writer_step(SwitchEvent::Level(Level::Low)), WriterAction::Drive(Level::Low));
    assert_eq!(writer_step(SwitchEvent::Quit), WriterAction::Exit);
}

#[test]
fn hangup_is_reload_and_terminate_fires_once() {
    let mut l = ShutdownListener::new();
    assert!(!l.is_fired());
    assert_eq!(l.on_signal(Signal::Hangup), SignalAction::Reload);
    assert!(!l.is_fired());
    assert_eq!(l.on_signal(Signal::Terminate), SignalAction::Shutdown);
    assert!(l.is_fired());
    assert_eq!(l.on_signal(Signal::Interrupt), SignalAction::Ignore);
    assert_eq!(l.on_signal(Signal::Hangup), SignalAction::Ignore);
    assert!(l.is_fired());
}

#[test]
fn every_shutdown_signal_fires() {
    for sig in [Signal::Terminate, Signal::Interrupt, Signal::Quit] {
        let mut l = ShutdownListener::new();
        assert_eq!(l.on_signal(sig), SignalAction::Shutdown);
        assert!(l.is_fired());
    }
}
