use livesplit_auto_splitting::environment::{store_read, Environment, DEFAULT_TICK_NANOS};
use livesplit_auto_splitting::mock::MockTimer;
use livesplit_auto_splitting::registry::ProcessError;
use livesplit_auto_splitting::stepping::{sleep_time, GuestCall, ModuleState, Progress};
use livesplit_auto_splitting::timer::{TimeSpan, Timer, TimerState};
use livesplit_auto_splitting::trap::Trap;
use sysinfo::{ProcessExt, System, SystemExt};

#[derive(Debug, Clone, Copy, PartialEq, Eq)]
enum Seen {
    Start,
    Split,
    Reset,
    GameTime(u64, u32),
    Pause,
    Resume,
}

struct Log {
    seen: Vec<Seen>,
    state: TimerState,
    paused: bool,
}

impl Log {
    fn new() -> Log {
        Log { seen: Vec::new(), state: TimerState::NotRunning, paused: false }
    }
}

impl Timer for Log {
    fn timer_state(&self) -> TimerState {
        self.state
    }
    fn start(&mut self) {
        self.seen.push(Seen::Start);
        self.state = TimerState::Running;
    }
    fn split(&mut self) {
        self.seen.push(Seen::Split);
    }
    fn reset(&mut self) {
        self.seen.push(Seen::Reset);
        self.state = TimerState::NotRunning;
    }
    fn set_game_time(&mut self, time: TimeSpan) {
        self.seen.push(Seen::GameTime(time.secs(), time.subsec_nanos()));
    }
    fn pause_game_time(&mut self) {
        self.seen.push(Seen::Pause);
        self.paused = true;
    }
    fn resume_game_time(&mut self) {
        self.seen.push(Seen::Resume);
        self.paused = false;
    }
    fn is_game_time_paused(&self) -> bool {
        self.paused
    }
}

#[test]
fn new_environment_has_the_default_tick_and_no_process() {
    let env = Environment::new(Log::new());
    assert_eq!(env.tick_rate().as_nanos(), 16_666_666);
    assert_eq!(DEFAULT_TICK_NANOS, 16_666_666);
    assert_eq!(env.processes().len(), 0);
    assert!(env.timer().seen.is_empty());
    let mut sixty = Environment::new(Log::new());
    assert_eq!(sixty.set_tick_rate(60.0f64.to_bits()), Ok(()));
    assert_eq!(sixty.tick_rate().as_nanos(), env.tick_rate().as_nanos());
}

#[test]
fn timer_calls_reach_the_adapter_in_order() {
    let mut env = Environment::new(Log::new());
    assert_eq!(env.timer_state(), 0);
    env.start();
    assert_eq!(env.timer_state(), 1);
    env.split();
    env.split();
    assert_eq!(env.timer().seen, vec![Seen::Start, Seen::Split, Seen::Split]);
    env.pause_game_time();
    env.resume_game_time();
    env.reset();
    assert_eq!(env.timer_state(), 0);
    assert_eq!(
        env.timer().seen,
        vec![Seen::Start, Seen::Split, Seen::Split, Seen::Pause, Seen::Resume, Seen::Reset]
    );
}

#[test]
fn timer_state_is_encoded_for_the_guest() {
    let mut env = Environment::new(MockTimer::<1>::new());
    assert_eq!(env.timer_state(), 0);
    env.start();
    assert_eq!(env.timer_state(), 1);
    env.split();
    assert_eq!(env.timer_state(), 2);
    env.reset();
    assert_eq!(env.timer_state(), 0);
}

#[test]
fn pausing_twice_is_pausing_once() {
    let mut once = Environment::new(MockTimer::<3>::new());
    once.pause_game_time();
    let mut twice = Environment::new(MockTimer::<3>::new());
    twice.pause_game_time();
    twice.pause_game_time();
    assert!(once.timer().is_game_time_paused());
    assert_eq!(once.timer().game_time_paused, twice.timer().game_time_paused);
    assert_eq!(once.timer().current_split, twice.timer().current_split);
    assert_eq!(once.timer().current_state, twice.timer().current_state);
}

#[test]
fn print_message_reads_the_text() {
    let mut env = Environment::new(Log::new());
    let memory = b"xxhixx".to_vec();
    assert_eq!(env.print_message(&memory, 2, 2), Ok("hi".to_string()));
    assert_eq!(
        env.print_message(b"Printing from the auto splitter", 0, 31),
        Ok("Printing from the auto splitter".to_string())
    );
    assert!(env.timer().seen.is_empty());
}

#[test]
fn print_message_traps_on_bad_arguments() {
    let mut env = Environment::new(Log::new());
    let memory = vec![b'o', b'k', 0x80];
    assert_eq!(env.print_message(&memory, 0, 4), Err(Trap::OutOfBounds));
    assert_eq!(env.print_message(&memory, 4, 0), Err(Trap::OutOfBounds));
    assert_eq!(env.print_message(&memory, u32::MAX, 3), Err(Trap::OutOfBounds));
    assert_eq!(env.print_message(&memory, 0, 3), Err(Trap::InvalidUtf8));
    assert!(env.timer().seen.is_empty());
}

#[test]
fn attach_traps_on_bad_arguments_and_touches_nothing() {
    let mut env = Environment::new(Log::new());
    let memory = vec![0xc3, 0x28, b'a'];
    assert_eq!(env.attach(&memory, 1, 3), Err(Trap::OutOfBounds));
    assert_eq!(env.attach(&memory, 0xffff_fff0, 0x20), Err(Trap::OutOfBounds));
    assert_eq!(env.attach(&memory, 0, 2), Err(Trap::InvalidUtf8));
    assert_eq!(env.processes().len(), 0);
    assert!(env.timer().seen.is_empty());
    assert_eq!(env.tick_rate().as_nanos(), 16_666_666);
}

#[test]
fn attach_of_the_empty_name_returns_null() {
    let mut env = Environment::new(Log::new());
    let memory = b"game".to_vec();
    assert_eq!(env.attach(&memory, 0, 0), Ok(0));
    assert_eq!(env.attach(&memory, 4, 0), Ok(0));
    assert_eq!(env.attach(&[], 0, 0), Ok(0));
    assert_eq!(env.processes().len(), 0);
}

#[test]
fn attach_of_a_missing_process_returns_null_and_detach_of_null_traps() {
    let mut env = Environment::new(Log::new());
    let memory = b"does-not-exist".to_vec();
    assert_eq!(env.attach(&memory, 0, 14), Ok(0));
    assert_eq!(env.detach(0), Err(Trap::InvalidHandle(0)));
    assert_eq!(env.processes().len(), 0);
    assert!(env.timer().seen.is_empty());
}

#[test]
fn detach_traps_on_a_token_that_is_not_live() {
    let mut env = Environment::new(Log::new());
    assert_eq!(env.detach(0x1_0000_0001), Err(Trap::InvalidHandle(0x1_0000_0001)));
    assert_eq!(env.detach(u64::MAX), Err(Trap::InvalidHandle(u64::MAX)));
}

#[test]
fn read_into_buf_traps_on_a_token_that_is_not_live() {
    let mut env = Environment::new(Log::new());
    let mut memory = vec![5u8; 32];
    assert_eq!(env.read_into_buf(&mut memory, 0, 0x1000, 0, 8), Err(Trap::InvalidHandle(0)));
    assert_eq!(
        env.read_into_buf(&mut memory, 0x1_0000_0001, 0x1000, 0, 8),
        Err(Trap::InvalidHandle(0x1_0000_0001))
    );
    assert_eq!(
        env.read_into_buf(&mut memory, 0x1_0000_0001, 0x1000, 30, 8),
        Err(Trap::InvalidHandle(0x1_0000_0001))
    );
    assert_eq!(memory, vec![5u8; 32]);
    assert!(env.timer().seen.is_empty());
}

#[test]
fn store_read_writes_the_bytes_or_reports_failure() {
    let mut memory = vec![0u8; 8];
    assert_eq!(store_read(&mut memory, 3, Ok(vec![1, 2, 3])), 1);
    assert_eq!(memory, vec![0, 0, 0, 1, 2, 3, 0, 0]);
    assert_eq!(store_read(&mut memory, 0, Err(ProcessError::ReadFailed)), 0);
    assert_eq!(store_read(&mut memory, 0, Err(ProcessError::InvalidHandle)), 0);
    assert_eq!(memory, vec![0, 0, 0, 1, 2, 3, 0, 0]);
    assert_eq!(store_read(&mut memory, 8, Ok(Vec::new())), 1);
    assert_eq!(memory, vec![0, 0, 0, 1, 2, 3, 0, 0]);
}

#[test]
fn set_tick_rate_sets_the_tick() {
    let mut env = Environment::new(Log::new());
    assert_eq!(env.set_tick_rate(10.0f64.to_bits()), Ok(()));
    assert_eq!(env.tick_rate().as_nanos(), 100_000_000);
    assert_eq!(env.set_tick_rate(120.0f64.to_bits()), Ok(()));
    assert_eq!(env.tick_rate().as_nanos(), 8_333_333);
    assert_eq!(env.set_tick_rate(1e6f64.to_bits()), Ok(()));
    assert_eq!(env.tick_rate().as_nanos(), 1_000_000);
    assert!(env.timer().seen.is_empty());
}

#[test]
fn set_tick_rate_traps_and_keeps_the_tick() {
    let mut env = Environment::new(Log::new());
    assert_eq!(env.set_tick_rate(10.0f64.to_bits()), Ok(()));
    assert_eq!(env.set_tick_rate(0.0f64.to_bits()), Err(Trap::InvalidTickRate));
    assert_eq!(env.set_tick_rate(f64::NAN.to_bits()), Err(Trap::InvalidTickRate));
    assert_eq!(env.set_tick_rate((-1.0f64).to_bits()), Err(Trap::InvalidTickRate));
    assert_eq!(env.set_tick_rate(f64::INFINITY.to_bits()), Err(Trap::InvalidTickRate));
    assert_eq!(env.tick_rate().as_nanos(), 100_000_000);
}

#[test]
fn set_game_time_hands_the_time_to_the_adapter() {
    let mut env = Environment::new(Log::new());
    assert_eq!(env.set_game_time(0.0f64.to_bits()), Ok(()));
    assert_eq!(env.set_game_time((-0.0f64).to_bits()), Ok(()));
    assert_eq!(env.set_game_time(1.5f64.to_bits()), Ok(()));
    assert_eq!(env.set_game_time(61.25f64.to_bits()), Ok(()));
    assert_eq!(
        env.timer().seen,
        vec![
            Seen::GameTime(0, 0),
            Seen::GameTime(0, 0),
            Seen::GameTime(1, 500_000_000),
            Seen::GameTime(61, 250_000_000)
        ]
    );
}

#[test]
fn set_game_time_traps_and_leaves_the_adapter_alone() {
    let mut env = Environment::new(Log::new());
    env.start();
    assert_eq!(env.set_game_time(f64::NAN.to_bits()), Err(Trap::InvalidGameTime));
    assert_eq!(env.set_game_time(f64::INFINITY.to_bits()), Err(Trap::InvalidGameTime));
    assert_eq!(env.set_game_time(f64::NEG_INFINITY.to_bits()), Err(Trap::InvalidGameTime));
    assert_eq!(env.set_game_time((-0.001f64).to_bits()), Err(Trap::InvalidGameTime));
    assert_eq!(env.set_game_time(1e30f64.to_bits()), Err(Trap::InvalidGameTime));
    assert_eq!(env.timer().seen, vec![Seen::Start]);
    assert_eq!(env.timer_state(), 1);
}

fn own_process_name() -> String {
    let mut system = System::new();
    system.refresh_processes();
    let own = sysinfo::get_current_pid().expect("own pid");
    system.process(own).expect("own process").name().to_string()
}

#[test]
fn attached_process_is_read_until_it_is_detached() {
    let name = own_process_name();
    let mut memory = vec![0u8; 64];
    memory[..name.len()].copy_from_slice(name.as_bytes());
    let mut env = Environment::new(Log::new());
    let token = env.attach(&memory, 0, name.len() as u32).expect("a well-formed name");
    assert_ne!(token, 0);
    assert_eq!(env.processes().len(), 1);
    assert!(env.processes().resolve(token).is_some());

    // A buffer that does not lie inside the guest's memory traps.
    let before = memory.clone();
    assert_eq!(env.read_into_buf(&mut memory, token, 0x1000, 60, 5), Err(Trap::OutOfBounds));
    assert_eq!(env.read_into_buf(&mut memory, token, 0x1000, 65, 0), Err(Trap::OutOfBounds));
    assert_eq!(
        env.read_into_buf(&mut memory, token, 0x1000, u32::MAX, 2),
        Err(Trap::OutOfBounds)
    );
    assert_eq!(memory, before);

    // A read of nothing at all succeeds or fails, and changes nothing.
    let status = env.read_into_buf(&mut memory, token, 0, 64, 0).expect("no trap");
    assert!(status == 0 || status == 1);
    assert_eq!(memory, before);

    // A read from the null page fails: status 0, no trap, memory untouched.
    assert_eq!(env.read_into_buf(&mut memory, token, 8, 32, 16), Ok(0));
    assert_eq!(memory, before);

    assert_eq!(env.detach(token), Ok(()));
    assert_eq!(env.processes().len(), 0);
    assert_eq!(
        env.read_into_buf(&mut memory, token, 0x1000, 32, 16),
        Err(Trap::InvalidHandle(token))
    );
    assert_eq!(env.detach(token), Err(Trap::InvalidHandle(token)));
    assert_eq!(memory, before);
    assert!(env.timer().seen.is_empty());
}

#[test]
fn mock_timer_behind_the_bindings() {
    let mut env = Environment::new(MockTimer::<2>::new());
    env.split();
    assert_eq!(env.timer().current_split, 0);
    env.reset();
    env.start();
    env.split();
    assert_eq!(env.timer_state(), 1);
    env.split();
    assert_eq!(env.timer_state(), 2);
    env.split();
    assert_eq!(env.timer().current_split, 2);
    assert_eq!(env.set_game_time(2.5f64.to_bits()), Ok(()));
    assert_eq!(env.timer().current_split, 2);
    env.pause_game_time();
    assert!(env.timer().is_game_time_paused());
    env.resume_game_time();
    assert!(!env.timer().is_game_time_paused());
}

#[test]
fn tick_rate_of_ten_gives_ten_updates_a_second() {
    let mut env = Environment::new(Log::new());
    let mut state = ModuleState::new(true);
    let mut updates = 0;
    // One second on a clock that only the waits between steps advance.
    let mut clock: u128 = 0;
    while clock < 1_000_000_000 {
        let mut progress = state.begin_step();
        while let Progress::Call(call) = progress {
            match call {
                GuestCall::Configure => assert_eq!(env.set_tick_rate(10.0f64.to_bits()), Ok(())),
                GuestCall::Update => updates += 1,
            }
            progress = state.record(call, true);
        }
        assert_eq!(progress, Progress::Done);
        let wait = sleep_time(&env.tick_rate(), &TimeSpan::from_nanos(0));
        assert_eq!(wait.as_nanos(), 100_000_000);
        clock += wait.as_nanos();
    }
    assert!((9..=11).contains(&updates));
    assert_eq!(updates, 10);
}

#[test]
fn guest_that_traps_in_update_is_not_stepped_again() {
    let mut env = Environment::new(Log::new());
    let mut state = ModuleState::new(true);
    assert_eq!(state.begin_step(), Progress::Call(GuestCall::Configure));
    assert_eq!(env.set_game_time(1.5f64.to_bits()), Ok(()));
    assert_eq!(state.record(GuestCall::Configure, true), Progress::Call(GuestCall::Update));
    let outcome = env.set_game_time(f64::NAN.to_bits());
    assert_eq!(outcome, Err(Trap::InvalidGameTime));
    assert_eq!(state.record(GuestCall::Update, outcome.is_ok()), Progress::Failed);
    assert_eq!(state.begin_step(), Progress::Failed);
    // Only what was called before the trap reached the timer.
    assert_eq!(env.timer().seen, vec![Seen::GameTime(1, 500_000_000)]);
}
