//! The guest context and the host bindings: the functions that a guest
//! imports, each of which checks its arguments against the guest's memory
//! and then makes one call on the registry or the timer.

use vstd::prelude::*;
use crate::abi::{decode_game_time, decode_tick_rate, game_time_nanos, tick_nanos, MIN_TICK_NANOS};
use crate::memory::{check_range, guest_range, guest_str, in_bounds, read_str};
use crate::process::{is_chosen, none_named, write_bytes, Address};
use crate::registry::{ProcessError, ProcessRegistry, MAX_ENTRIES, NULL_TOKEN};
use crate::timer::{TimeSpan, Timer, TimerState};
use crate::trap::Trap;

verus! {

/// The default time between two steps: a sixtieth of a second, in whole
/// nanoseconds, rounded down as every tick is.
pub const DEFAULT_TICK_NANOS: u64 = 16_666_666;

/// The guest's memory after `bytes` have been stored from `start` on.
pub open spec fn stored(memory: Seq<u8>, start: int, bytes: Seq<u8>) -> Seq<u8>
    recommends
        0 <= start,
        start + bytes.len() <= memory.len(),
{
    memory.subrange(0, start) + bytes + memory.subrange(
        start + bytes.len(),
        memory.len() as int,
    )
}

/// Ends a read into the guest's memory: stores the bytes that came back and
/// reports 1, or reports 0 and leaves the memory alone when none came.
pub fn store_read(
    memory: &mut [u8],
    start: usize,
    answer: Result<Vec<u8>, ProcessError>,
) -> (status: u32)
    requires
        answer matches Ok(b) ==> start + b@.len() <= old(memory)@.len(),
    ensures
        answer matches Ok(b) ==> status == 1 && final(memory)@ == stored(
            old(memory)@,
            start as int,
            b@,
        ),
        answer is Err ==> status == 0 && final(memory)@ == old(memory)@,
{
    match answer {
        Ok(bytes) => {
            write_bytes(memory, start, &bytes);
            1
        },
        Err(_) => 0,
    }
}

/// What belongs to one loaded guest: the processes it has attached to, the
/// timer it drives, and the time between two of its steps.
pub struct Environment<T: Timer> {
    tick_rate: TimeSpan,
    processes: ProcessRegistry,
    timer: T,
}

impl<T: Timer> Environment<T> {
    /// The timer adapter of this guest.
    pub closed spec fn adapter(&self) -> T {
        self.timer
    }

    /// The live tokens of this guest, each with the process id behind it.
    pub closed spec fn tokens(&self) -> Map<u64, u32> {
        self.processes@
    }

    /// The time between two steps.
    pub closed spec fn tick(&self) -> TimeSpan {
        self.tick_rate
    }

    /// The processes of the machine as the registry of this guest last read
    /// them: for each its id, its name and its start time.
    pub closed spec fn seen(&self) -> Set<(u32, Seq<char>, u64)> {
        self.processes.seen()
    }

    /// The invariant of an environment: its registry is well formed and its
    /// tick is no shorter than the floor.
    pub closed spec fn wf(&self) -> bool {
        &&& self.processes.wf()
        &&& self.tick_rate.wf()
        &&& self.tick_rate.total_nanos() >= MIN_TICK_NANOS
    }

    /// An environment for a guest that is about to be loaded: no process
    /// attached, the default tick.
    pub fn new(timer: T) -> (env: Self)
        ensures
            env.wf(),
            env.adapter() == timer,
            env.tokens() == crate::registry::no_entries(),
            env.tick().total_nanos() == DEFAULT_TICK_NANOS,
    {
        Environment {
            tick_rate: TimeSpan::from_nanos(DEFAULT_TICK_NANOS),
            processes: ProcessRegistry::new(),
            timer,
        }
    }

    /// The timer adapter.
    pub fn timer(&self) -> (timer: &T)
        ensures
            *timer == self.adapter(),
    {
        &self.timer
    }

    /// The time between two steps.
    pub fn tick_rate(&self) -> (tick: TimeSpan)
        requires
            self.wf(),
        ensures
            tick == self.tick(),
            tick.wf(),
            tick.total_nanos() >= MIN_TICK_NANOS,
    {
        self.tick_rate
    }

    /// The registry of attached processes.
    pub fn processes(&self) -> (registry: &ProcessRegistry)
        requires
            self.wf(),
        ensures
            registry@ == self.tokens(),
            registry.wf(),
    {
        &self.processes
    }

    /// Starts the timer. Never traps.
    pub fn start(&mut self)
        requires
            old(self).wf(),
        ensures
            final(self).wf(),
            T::start_step(old(self).adapter(), final(self).adapter()),
            final(self).tokens() == old(self).tokens(),
            final(self).tick() == old(self).tick(),
    {
        self.timer.start()
    }

    /// Splits. Never traps.
    pub fn split(&mut self)
        requires
            old(self).wf(),
        ensures
            final(self).wf(),
            T::split_step(old(self).adapter(), final(self).adapter()),
            final(self).tokens() == old(self).tokens(),
            final(self).tick() == old(self).tick(),
    {
        self.timer.split()
    }

    /// Resets the timer. Never traps.
    pub fn reset(&mut self)
        requires
            old(self).wf(),
        ensures
            final(self).wf(),
            T::reset_step(old(self).adapter(), final(self).adapter()),
            final(self).tokens() == old(self).tokens(),
            final(self).tick() == old(self).tick(),
    {
        self.timer.reset()
    }

    /// The state of the timer as the guest reads it: 0, 1 or 2, for the
    /// state that the adapter reports. Never traps.
    pub fn timer_state(&self) -> (value: u32)
        ensures
            exists|state: TimerState|
                (#[trigger] self.adapter().may_report(state)) && value == state.wire_value(),
            value <= 2,
    {
        let state = self.timer.timer_state();
        assert(self.adapter().may_report(state));
        state.to_wire()
    }

    /// Pauses the game time. Never traps.
    pub fn pause_game_time(&mut self)
        requires
            old(self).wf(),
        ensures
            final(self).wf(),
            T::pause_step(old(self).adapter(), final(self).adapter()),
            final(self).tokens() == old(self).tokens(),
            final(self).tick() == old(self).tick(),
    {
        self.timer.pause_game_time()
    }

    /// Resumes the game time. Never traps.
    pub fn resume_game_time(&mut self)
        requires
            old(self).wf(),
        ensures
            final(self).wf(),
            T::resume_step(old(self).adapter(), final(self).adapter()),
            final(self).tokens() == old(self).tokens(),
            final(self).tick() == old(self).tick(),
    {
        self.timer.resume_game_time()
    }

    /// Attaches to the process whose name the guest gives as a string in its
    /// memory, and returns the token for it, or the null token when no such
    /// process is found. For a name that is not empty the process list is
    /// read anew, and the process of exactly this name that was started last
    /// is taken.
    ///
    /// Traps on a string outside the memory or not in UTF-8, and then leaves
    /// the environment as it was. The timer is never touched.
    pub fn attach(&mut self, memory: &[u8], ptr: u32, len: u32) -> (token: Result<u64, Trap>)
        requires
            old(self).wf(),
        ensures
            final(self).wf(),
            final(self).adapter() == old(self).adapter(),
            final(self).tick() == old(self).tick(),
            guest_str(memory@, ptr, len) matches Err(trap) ==> token == Err::<u64, Trap>(trap)
                && *final(self) == *old(self),
            !in_bounds(memory@.len(), ptr, len) ==> token == Err::<u64, Trap>(Trap::OutOfBounds),
            guest_str(memory@, ptr, len) is Ok ==> token is Ok,
            token matches Ok(t) ==> {
                &&& len == 0 ==> t == NULL_TOKEN
                &&& t == NULL_TOKEN ==> final(self).tokens() == old(self).tokens()
                &&& t != NULL_TOKEN ==> !old(self).tokens().contains_key(t) && exists|pid: u32|
                    final(self).tokens() == old(self).tokens().insert(t, pid)
            },
            token matches Ok(t) ==> {
                let name = guest_str(memory@, ptr, len)->Ok_0;
                &&& name.len() == 0 ==> t == NULL_TOKEN
                &&& name.len() > 0 ==> (t == NULL_TOKEN <==> none_named(final(self).seen(), name)
                    || old(self).tokens().len() >= MAX_ENTRIES)
                &&& name.len() > 0 && t != NULL_TOKEN ==> exists|pid: u32|
                    is_chosen(final(self).seen(), name, pid) && final(self).tokens() == old(
                        self
                    ).tokens().insert(t, pid)
            },
    {
        let name = read_str(memory, ptr, len)?;
        proof {
            if len == 0 {
                assert(guest_range(memory@, ptr, len) =~= Seq::<u8>::empty());
                reveal_with_fuel(vstd::utf8::decode_utf8, 1);
            }
        }
        Ok(self.processes.attach(&name))
    }

    /// Detaches the process behind a token. Traps on a token that is not
    /// live, and then leaves the environment as it was.
    pub fn detach(&mut self, process: u64) -> (done: Result<(), Trap>)
        requires
            old(self).wf(),
        ensures
            final(self).wf(),
            final(self).adapter() == old(self).adapter(),
            final(self).tick() == old(self).tick(),
            old(self).tokens().contains_key(process) ==> done is Ok && final(self).tokens()
                == old(self).tokens().remove(process),
            !old(self).tokens().contains_key(process) ==> done == Err::<(), Trap>(
                Trap::InvalidHandle(process),
            ) && *final(self) == *old(self),
    {
        match self.processes.detach(process) {
            Ok(()) => Ok(()),
            Err(_) => Err(Trap::InvalidHandle(process)),
        }
    }

    /// Reads the message that the guest gives as a string in its memory, for
    /// the host to log. Traps on a string outside the memory or not in
    /// UTF-8. The environment stays as it was.
    pub fn print_message(&mut self, memory: &[u8], ptr: u32, len: u32) -> (message: Result<
        String,
        Trap,
    >)
        ensures
            *final(self) == *old(self),
            !in_bounds(memory@.len(), ptr, len) ==> message == Err::<String, Trap>(
                Trap::OutOfBounds,
            ),
            message is Ok <==> guest_str(memory@, ptr, len) is Ok,
            message matches Ok(s) ==> guest_str(memory@, ptr, len) == Ok::<Seq<char>, Trap>(s@),
            message matches Err(trap) ==> guest_str(memory@, ptr, len) == Err::<Seq<char>, Trap>(
                trap,
            ),
    {
        read_str(memory, ptr, len)
    }

    /// Reads from the memory of an attached process into the guest's memory:
    /// `buf_len` bytes from `address` on, stored at `buf_ptr`. Returns 1 when
    /// all bytes were read and stored, 0 when the read failed; then the
    /// guest's memory is as it was.
    ///
    /// Traps on a token that is not live and on a buffer outside the guest's
    /// memory, and touches no memory then. The environment stays as it was
    /// in every case.
    pub fn read_into_buf(
        &mut self,
        memory: &mut [u8],
        process: u64,
        address: u64,
        buf_ptr: u32,
        buf_len: u32,
    ) -> (status: Result<u32, Trap>)
        requires
            old(self).wf(),
        ensures
            *final(self) == *old(self),
            final(memory)@.len() == old(memory)@.len(),
            !old(self).tokens().contains_key(process) ==> status == Err::<u32, Trap>(
                Trap::InvalidHandle(process),
            ),
            old(self).tokens().contains_key(process) && !in_bounds(
                old(memory)@.len(),
                buf_ptr,
                buf_len,
            ) ==> status == Err::<u32, Trap>(Trap::OutOfBounds),
            old(self).tokens().contains_key(process) && in_bounds(
                old(memory)@.len(),
                buf_ptr,
                buf_len,
            ) ==> status == Ok::<u32, Trap>(0) || status == Ok::<u32, Trap>(1),
            !in_bounds(old(memory)@.len(), buf_ptr, buf_len) ==> status is Err,
            status != Ok::<u32, Trap>(1) ==> final(memory)@ == old(memory)@,
            status == Ok::<u32, Trap>(1) ==> exists|bytes: Seq<u8>|
                bytes.len() == buf_len && final(memory)@ == stored(
                    old(memory)@,
                    buf_ptr as int,
                    bytes,
                ),
    {
        if self.processes.resolve(process).is_none() {
            return Err(Trap::InvalidHandle(process));
        }
        let (start, _end) = check_range(memory.len(), buf_ptr, buf_len)?;
        let answer = self.processes.read_bytes(process, Address(address), buf_len as usize);
        Ok(store_read(memory, start, answer))
    }

    /// Sets the time between two steps from a rate in ticks per second,
    /// given as the bit pattern of the number. The tick is one over the
    /// rate, rounded down to whole nanoseconds and held between the shortest
    /// and the longest tick.
    ///
    /// Traps on a rate that is not a finite number above zero, and then
    /// leaves the environment as it was. The timer is never touched.
    pub fn set_tick_rate(&mut self, ticks_per_sec: u64) -> (done: Result<(), Trap>)
        requires
            old(self).wf(),
        ensures
            final(self).wf(),
            final(self).adapter() == old(self).adapter(),
            final(self).tokens() == old(self).tokens(),
            tick_nanos(ticks_per_sec) is None ==> done == Err::<(), Trap>(Trap::InvalidTickRate)
                && *final(self) == *old(self),
            tick_nanos(ticks_per_sec) matches Some(n) ==> done is Ok && final(self).tick().wf()
                && final(self).tick().total_nanos() == n,
    {
        let tick = decode_tick_rate(ticks_per_sec)?;
        self.tick_rate = tick;
        Ok(())
    }

    /// Replaces the game time of the timer by a number of seconds, given as
    /// the bit pattern of the number and rounded down to whole nanoseconds.
    ///
    /// Traps on a number that is not finite, is negative, or is too large
    /// for a span, and then leaves the environment as it was.
    pub fn set_game_time(&mut self, secs: u64) -> (done: Result<(), Trap>)
        requires
            old(self).wf(),
        ensures
            final(self).wf(),
            final(self).tokens() == old(self).tokens(),
            final(self).tick() == old(self).tick(),
            game_time_nanos(secs) is None ==> done == Err::<(), Trap>(Trap::InvalidGameTime)
                && *final(self) == *old(self),
            game_time_nanos(secs) matches Some(n) ==> done is Ok && exists|time: TimeSpan|
                time.wf() && time.total_nanos() == n && T::set_game_time_step(
                    old(self).adapter(),
                    time,
                    final(self).adapter(),
                ),
    {
        let time = decode_game_time(secs)?;
        self.timer.set_game_time(time);
        Ok(())
    }
}

} // verus!
