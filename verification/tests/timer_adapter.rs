use livesplit_auto_splitting::mock::MockTimer;
use livesplit_auto_splitting::timer::{TimeSpan, Timer, TimerState};

#[derive(Debug, Clone, Copy, PartialEq, Eq)]
enum Call {
    Start,
    Split,
    Reset,
    SetGameTime(u64, u32),
    Pause,
    Resume,
}

struct Recorder {
    calls: Vec<Call>,
    state: TimerState,
}

impl Timer for Recorder {
    fn timer_state(&self) -> TimerState {
        self.state
    }
    fn start(&mut self) {
        self.calls.push(Call::Start);
        self.state = TimerState::Running;
    }
    fn split(&mut self) {
        self.calls.push(Call::Split);
    }
    fn reset(&mut self) {
        self.calls.push(Call::Reset);
        self.state = TimerState::NotRunning;
    }
    fn set_game_time(&mut self, time: TimeSpan) {
        self.calls.push(Call::SetGameTime(time.secs(), time.subsec_nanos()));
    }
    fn pause_game_time(&mut self) {
        self.calls.push(Call::Pause);
    }
    fn resume_game_time(&mut self) {
        self.calls.push(Call::Resume);
    }
    fn is_game_time_paused(&self) -> bool {
        false
    }
}

#[test]
fn recorder_sees_calls_in_order() {
    let mut r = Recorder { calls: Vec::new(), state: TimerState::NotRunning };
    assert_eq!(r.timer_state(), TimerState::NotRunning);
    r.start();
    r.split();
    r.split();
    assert_eq!(r.calls, vec![Call::Start, Call::Split, Call::Split]);
}

#[test]
fn timer_state_wire_values() {
    assert_eq!(TimerState::NotRunning.to_wire(), 0);
    assert_eq!(TimerState::Running.to_wire(), 1);
    assert_eq!(TimerState::Finished.to_wire(), 2);
    assert_eq!(TimerState::from_wire(0), Some(TimerState::NotRunning));
    assert_eq!(TimerState::from_wire(1), Some(TimerState::Running));
    assert_eq!(TimerState::from_wire(2), Some(TimerState::Finished));
    assert_eq!(TimerState::from_wire(3), None);
    assert_eq!(TimerState::from_wire(u32::MAX), None);
}

#[test]
fn mock_timer_runs_through_its_splits() {
    let mut t = MockTimer::<2>::new();
    assert_eq!(t.current_split, -1);
    assert_eq!(t.timer_state(), TimerState::NotRunning);
    t.split();
    assert_eq!(t.current_split, 0);
    let mut t = MockTimer::<2>::new();
    t.start();
    assert_eq!(t.timer_state(), TimerState::Running);
    assert_eq!(t.current_split, 0);
    t.start();
    assert_eq!(t.current_split, 0);
    t.split();
    assert_eq!(t.timer_state(), TimerState::Running);
    t.split();
    assert_eq!(t.timer_state(), TimerState::Finished);
    assert_eq!(t.current_split, 2);
    t.split();
    assert_eq!(t.current_split, 2);
    t.reset();
    assert_eq!(t.current_split, -1);
    assert_eq!(t.timer_state(), TimerState::NotRunning);
}

#[test]
fn mock_timer_pause_is_idempotent() {
    let mut once = MockTimer::<20>::new();
    once.pause_game_time();
    let mut twice = MockTimer::<20>::new();
    twice.pause_game_time();
    twice.pause_game_time();
    assert!(once.is_game_time_paused());
    assert_eq!(once.is_game_time_paused(), twice.is_game_time_paused());
    assert_eq!(once.current_split, twice.current_split);
    assert_eq!(once.timer_state(), twice.timer_state());
    twice.resume_game_time();
    twice.resume_game_time();
    assert!(!twice.is_game_time_paused());
}
