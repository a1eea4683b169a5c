//! Terminating the process wrappers: the order of work, when to wait, and when to use force.

use crate::text;
use vstd::prelude::*;

verus! {

/// How long to wait for a process to exit by itself, in milliseconds.
pub const GRACE_PERIOD_MS: u64 = 5000;

/// Pause between two looks at a process that is still running, in milliseconds.
pub const POLL_INTERVAL_MS: u64 = 200;

/// Exit code that Windows reports for a process that has not exited.
pub const STILL_ACTIVE: u32 = 259;

/// Exit code given to a process that is terminated by force.
pub const FORCED_EXIT_CODE: u32 = 1;

/// Access rights asked for when a process is opened: the standard rights, the right to wait for the
/// process, and every right specific to processes.
pub const PROCESS_ACCESS: u32 = 0x001F_FFFF;

/// The systems that differ in how processes are terminated.
#[derive(Clone, Copy, PartialEq, Eq, Debug)]
pub enum Platform {
    Windows,
    Other,
}

/// Where the termination of a list of processes stands. On Windows they are served one after the
/// other, and `index` is the place of the current one.
#[derive(Clone, Copy, PartialEq, Eq, Debug)]
pub enum TerminationState {
    /// The process has to be opened.
    Opening { index: usize },
    /// The process is open; it has to be asked to exit.
    Asking { index: usize },
    /// The process was asked to exit; the time since then has to be read.
    ReadingClock { index: usize },
    /// There is time left; the exit code has to be read.
    Polling { index: usize },
    /// The process runs on; a pause is due.
    Pausing { index: usize },
    /// The waiting is over; the exit code has to be read once more.
    LastLook { index: usize },
    /// The process still runs; it has to be terminated by force.
    Forcing { index: usize },
    /// The process is done with; its handle has to be closed.
    Closing { index: usize },
    /// Without processor groups, all processes share one grace period; the clock has to be read.
    GraceClock,
    /// A pause within the shared grace period is due.
    GracePause,
    /// There is nothing left to do.
    Done,
}

/// What came of the work that a [`TerminationAction`] asks for.
#[derive(Clone, Copy, PartialEq, Eq, Debug)]
pub enum TerminationEvent {
    Opened,
    OpenFailed,
    /// The request to exit has been made, with whatever result.
    Asked,
    /// Time since the request to exit was made, or since the shared grace period began.
    Elapsed { millis: u64 },
    /// The exit code, where it could be read.
    ExitCode { code: Option<u32> },
    Paused,
    Forced,
    Closed,
}

/// Work that the termination asks for next.
pub enum TerminationAction {
    /// Open the process.
    Open { pid: u32, access: u32 },
    /// Run `taskkill` with these arguments, to its end.
    RunTaskkill { arguments: Vec<String> },
    /// Tell the time since the last `taskkill` ended, or since the shared grace period began.
    ReadClock,
    /// Read the exit code of the open process.
    ReadExitCode,
    /// Sleep.
    Pause { millis: u64 },
    /// Terminate the open process.
    Terminate { exit_code: u32 },
    /// Close the handle of the open process.
    Close,
    /// Hand control back to the caller.
    Return,
}

/// Arguments that make `taskkill` end a process and its children.
pub open spec fn taskkill_arguments(pid: u32) -> Seq<Seq<char>> {
    seq!["/F"@, "/T"@, "/PID"@, text::decimal(pid as nat)]
}

/// The state in which the process at `index` comes next, of `count` in all.
pub open spec fn before_process(index: nat, count: nat) -> TerminationState {
    if index < count {
        TerminationState::Opening { index: index as usize }
    } else {
        TerminationState::Done
    }
}

impl TerminationState {
    /// The place of the process that is being served.
    pub open spec fn index(self) -> Option<usize> {
        match self {
            TerminationState::Opening { index } => Some(index),
            TerminationState::Asking { index } => Some(index),
            TerminationState::ReadingClock { index } => Some(index),
            TerminationState::Polling { index } => Some(index),
            TerminationState::Pausing { index } => Some(index),
            TerminationState::LastLook { index } => Some(index),
            TerminationState::Forcing { index } => Some(index),
            TerminationState::Closing { index } => Some(index),
            _ => None,
        }
    }

    /// The process that is being served, where there is one, is one of `count`.
    pub open spec fn is_valid(self, count: nat) -> bool {
        self.index() matches Some(index) ==> index < count
    }

    /// Whether a process is held open.
    pub open spec fn holds_handle(self) -> bool {
        self.index() is Some && !(self is Opening)
    }

    /// The first state, for `count` processes.
    pub open spec fn first(platform: Platform, count: nat) -> TerminationState {
        if count == 0 {
            TerminationState::Done
        } else {
            match platform {
                Platform::Windows => TerminationState::Opening { index: 0 },
                Platform::Other => TerminationState::GraceClock,
            }
        }
    }

    /// The state after `event`. An event that answers another action than the pending one changes
    /// nothing.
    pub open spec fn next(self, count: nat, event: TerminationEvent) -> TerminationState {
        match (self, event) {
            (TerminationState::Opening { index }, TerminationEvent::Opened) =>
                TerminationState::Asking { index },
            (TerminationState::Opening { index }, TerminationEvent::OpenFailed) =>
                before_process((index + 1) as nat, count),
            (TerminationState::Asking { index }, TerminationEvent::Asked) =>
                TerminationState::ReadingClock { index },
            (TerminationState::ReadingClock { index }, TerminationEvent::Elapsed { millis }) =>
                if millis < GRACE_PERIOD_MS {
                    TerminationState::Polling { index }
                } else {
                    TerminationState::LastLook { index }
                },
            (TerminationState::Polling { index }, TerminationEvent::ExitCode { code }) =>
                if code matches Some(c) && c != STILL_ACTIVE {
                    TerminationState::LastLook { index }
                } else {
                    TerminationState::Pausing { index }
                },
            (TerminationState::Pausing { index }, TerminationEvent::Paused) =>
                TerminationState::ReadingClock { index },
            (TerminationState::LastLook { index }, TerminationEvent::ExitCode { code }) =>
                if code == Some(STILL_ACTIVE) {
                    TerminationState::Forcing { index }
                } else {
                    TerminationState::Closing { index }
                },
            (TerminationState::Forcing { index }, TerminationEvent::Forced) =>
                TerminationState::Closing { index },
            (TerminationState::Closing { index }, TerminationEvent::Closed) =>
                before_process((index + 1) as nat, count),
            (TerminationState::GraceClock, TerminationEvent::Elapsed { millis }) =>
                if millis < GRACE_PERIOD_MS {
                    TerminationState::GracePause
                } else {
                    TerminationState::Done
                },
            (TerminationState::GracePause, TerminationEvent::Paused) =>
                TerminationState::GraceClock,
            _ => self,
        }
    }

    /// The first state of the termination of `count` processes.
    pub fn start(platform: Platform, count: usize) -> (state: TerminationState)
        ensures
            state == TerminationState::first(platform, count as nat),
            state.is_valid(count as nat),
    {
        if count == 0 {
            TerminationState::Done
        } else {
            match platform {
                Platform::Windows => TerminationState::Opening { index: 0 },
                Platform::Other => TerminationState::GraceClock,
            }
        }
    }

    /// The state in which the process at `index` comes next, of `count` in all.
    fn at_process(index: usize, count: usize) -> (state: TerminationState)
        ensures
            state == before_process(index as nat, count as nat),
            state.is_valid(count as nat),
    {
        if index < count {
            TerminationState::Opening { index }
        } else {
            TerminationState::Done
        }
    }

    /// Moves on after `event`, when `count` processes are to be terminated.
    pub fn step(self, count: usize, event: TerminationEvent) -> (state: TerminationState)
        requires
            self.is_valid(count as nat),
        ensures
            state == self.next(count as nat, event),
            state.is_valid(count as nat),
    {
        match (self, event) {
            (TerminationState::Opening { index }, TerminationEvent::Opened) => {
                TerminationState::Asking { index }
            },
            (TerminationState::Opening { index }, TerminationEvent::OpenFailed) => {
                TerminationState::at_process(index + 1, count)
            },
            (TerminationState::Asking { index }, TerminationEvent::Asked) => {
                TerminationState::ReadingClock { index }
            },
            (TerminationState::ReadingClock { index }, TerminationEvent::Elapsed { millis }) => {
                if millis < GRACE_PERIOD_MS {
                    TerminationState::Polling { index }
                } else {
                    TerminationState::LastLook { index }
                }
            },
            (TerminationState::Polling { index }, TerminationEvent::ExitCode { code }) => {
                match code {
                    Some(c) => if c != STILL_ACTIVE {
                        TerminationState::LastLook { index }
                    } else {
                        TerminationState::Pausing { index }
                    },
                    None => TerminationState::Pausing { index },
                }
            },
            (TerminationState::Pausing { index }, TerminationEvent::Paused) => {
                TerminationState::ReadingClock { index }
            },
            (TerminationState::LastLook { index }, TerminationEvent::ExitCode { code }) => {
                match code {
                    Some(c) => if c == STILL_ACTIVE {
                        TerminationState::Forcing { index }
                    } else {
                        TerminationState::Closing { index }
                    },
                    None => TerminationState::Closing { index },
                }
            },
            (TerminationState::Forcing { index }, TerminationEvent::Forced) => {
                TerminationState::Closing { index }
            },
            (TerminationState::Closing { index }, TerminationEvent::Closed) => {
                TerminationState::at_process(index + 1, count)
            },
            (TerminationState::GraceClock, TerminationEvent::Elapsed { millis }) => {
                if millis < GRACE_PERIOD_MS {
                    TerminationState::GracePause
                } else {
                    TerminationState::Done
                }
            },
            (TerminationState::GracePause, TerminationEvent::Paused) => {
                TerminationState::GraceClock
            },
            _ => self,
        }
    }

    /// `action` is the work that is due in this state, for the processes `pids`.
    pub open spec fn asks_for(self, pids: Seq<u32>, action: TerminationAction) -> bool {
        match self {
            TerminationState::Opening { index } => action == (TerminationAction::Open {
                pid: pids[index as int],
                access: PROCESS_ACCESS,
            }),
            TerminationState::Asking { index } => {
                &&& action matches TerminationAction::RunTaskkill { arguments }
                &&& text::texts(arguments@) == taskkill_arguments(pids[index as int])
            },
            TerminationState::ReadingClock { .. } => action == TerminationAction::ReadClock,
            TerminationState::Polling { .. } => action == TerminationAction::ReadExitCode,
            TerminationState::Pausing { .. } => action == (TerminationAction::Pause {
                millis: POLL_INTERVAL_MS,
            }),
            TerminationState::LastLook { .. } => action == TerminationAction::ReadExitCode,
            TerminationState::Forcing { .. } => action == (TerminationAction::Terminate {
                exit_code: FORCED_EXIT_CODE,
            }),
            TerminationState::Closing { .. } => action == TerminationAction::Close,
            TerminationState::GraceClock => action == TerminationAction::ReadClock,
            TerminationState::GracePause => action == (TerminationAction::Pause {
                millis: POLL_INTERVAL_MS,
            }),
            TerminationState::Done => action == TerminationAction::Return,
        }
    }

    /// The work that is due in this state, for the processes `pids`.
    pub fn action(self, pids: &Vec<u32>) -> (action: TerminationAction)
        requires
            self.is_valid(pids@.len()),
        ensures
            self.asks_for(pids@, action),
    {
        match self {
            TerminationState::Opening { index } => TerminationAction::Open {
                pid: pids[index],
                access: PROCESS_ACCESS,
            },
            TerminationState::Asking { index } => {
                let mut arguments: Vec<String> = Vec::new();
                arguments.push("/F".to_owned());
                arguments.push("/T".to_owned());
                arguments.push("/PID".to_owned());
                arguments.push(text::to_decimal(pids[index] as u64));
                assert(text::texts(arguments@) =~= taskkill_arguments(pids@[index as int]));
                TerminationAction::RunTaskkill { arguments }
            },
            TerminationState::ReadingClock { .. } => TerminationAction::ReadClock,
            TerminationState::Polling { .. } => TerminationAction::ReadExitCode,
            TerminationState::Pausing { .. } => TerminationAction::Pause {
                millis: POLL_INTERVAL_MS,
            },
            TerminationState::LastLook { .. } => TerminationAction::ReadExitCode,
            TerminationState::Forcing { .. } => TerminationAction::Terminate {
                exit_code: FORCED_EXIT_CODE,
            },
            TerminationState::Closing { .. } => TerminationAction::Close,
            TerminationState::GraceClock => TerminationAction::ReadClock,
            TerminationState::GracePause => TerminationAction::Pause { millis: POLL_INTERVAL_MS },
            TerminationState::Done => TerminationAction::Return,
        }
    }

    /// The state that a termination of `count` processes reaches from this one through `events`.
    pub open spec fn run(self, count: nat, events: Seq<TerminationEvent>) -> TerminationState
        decreases events.len(),
    {
        if events.len() == 0 {
            self
        } else {
            self.run(count, events.drop_last()).next(count, events.last())
        }
    }

    /// How many processes were opened on the way.
    pub open spec fn handles_opened(self, count: nat, events: Seq<TerminationEvent>) -> nat
        decreases events.len(),
    {
        if events.len() == 0 {
            0
        } else {
            let before = self.run(count, events.drop_last());
            let earlier = self.handles_opened(count, events.drop_last());
            if before is Opening && events.last() is Opened {
                earlier + 1
            } else {
                earlier
            }
        }
    }

    /// How many handles were closed on the way.
    pub open spec fn handles_closed(self, count: nat, events: Seq<TerminationEvent>) -> nat
        decreases events.len(),
    {
        if events.len() == 0 {
            0
        } else {
            let before = self.run(count, events.drop_last());
            let earlier = self.handles_closed(count, events.drop_last());
            if before is Closing && events.last() is Closed {
                earlier + 1
            } else {
                earlier
            }
        }
    }

    /// The places of the processes that were tried to open on the way, in order.
    pub open spec fn tried(self, count: nat, events: Seq<TerminationEvent>) -> Seq<int>
        decreases events.len(),
    {
        if events.len() == 0 {
            seq![]
        } else {
            let before = self.run(count, events.drop_last());
            let earlier = self.tried(count, events.drop_last());
            if before is Opening && (events.last() is Opened || events.last() is OpenFailed) {
                earlier.push(before->Opening_index as int)
            } else {
                earlier
            }
        }
    }

    /// How many of `count` processes have been tried in this state.
    pub open spec fn tried_by_now(self, count: nat) -> nat {
        match self.index() {
            Some(index) => if self is Opening {
                index as nat
            } else {
                (index + 1) as nat
            },
            None => count,
        }
    }
}

/// No process stays open: whatever happens, the handles that were opened are those that were
/// closed, but for the one that is in use.
pub proof fn handles_are_closed(
    platform: Platform,
    count: usize,
    events: Seq<TerminationEvent>,
)
    ensures
        ({
            let first = TerminationState::first(platform, count as nat);
            let held: nat = if first.run(count as nat, events).holds_handle() {
                1
            } else {
                0
            };
            first.handles_opened(count as nat, events) == first.handles_closed(
                count as nat,
                events,
            ) + held
        }),
    decreases events.len(),
{
    if events.len() > 0 {
        handles_are_closed(platform, count, events.drop_last());
    }
}

/// Every process is tried exactly once, in the order of the list: at any moment the ones tried are
/// those at the first places, and at the end they are all of them.
pub proof fn every_process_is_tried_once(count: usize, events: Seq<TerminationEvent>)
    ensures
        ({
            let first = TerminationState::first(Platform::Windows, count as nat);
            let now = first.run(count as nat, events);
            &&& now.is_valid(count as nat)
            &&& first.tried(count as nat, events) == Seq::new(
                now.tried_by_now(count as nat),
                |i: int| i,
            )
            &&& now is Done ==> first.tried(count as nat, events).len() == count
        }),
    decreases events.len(),
{
    let first = TerminationState::first(Platform::Windows, count as nat);
    if events.len() > 0 {
        every_process_is_tried_once(count, events.drop_last());
        let before = first.run(count as nat, events.drop_last());
        assert(!(before is GraceClock) && !(before is GracePause)) by {
            windows_has_no_shared_grace_period(count, events.drop_last());
        }
    }
    let now = first.run(count as nat, events);
    assert(first.tried(count as nat, events) =~= Seq::new(
        now.tried_by_now(count as nat),
        |i: int| i,
    ));
}

/// On the way of a termination on Windows through `events`, the process at place `i` was dealt with:
/// it could not be opened, or the last look did not find it running, or it was terminated by force.
pub open spec fn dealt_with(count: nat, events: Seq<TerminationEvent>, i: int) -> bool
    decreases events.len(),
{
    if events.len() == 0 {
        false
    } else {
        let before = TerminationState::first(Platform::Windows, count).run(
            count,
            events.drop_last(),
        );
        ||| dealt_with(count, events.drop_last(), i)
        ||| (before.index() matches Some(index) && index == i) && match events.last() {
            TerminationEvent::OpenFailed => before is Opening,
            TerminationEvent::ExitCode { code } => before is LastLook && code != Some(STILL_ACTIVE),
            TerminationEvent::Forced => before is Forcing,
            _ => false,
        }
    }
}

/// No survivor is left: once the termination on Windows is done, every process of the list was dealt
/// with.
pub proof fn no_survivor_is_left(count: usize, events: Seq<TerminationEvent>)
    ensures
        TerminationState::first(Platform::Windows, count as nat).run(count as nat, events) is Done
            ==> forall|i: int| 0 <= i < count ==> dealt_with(count as nat, events, i),
{
    if TerminationState::first(Platform::Windows, count as nat).run(count as nat, events) is Done {
        assert forall|i: int| 0 <= i < count implies dealt_with(count as nat, events, i) by {
            passed_is_dealt_with(count, events, i);
        }
    }
}

/// A process that the termination has passed was dealt with.
proof fn passed_is_dealt_with(count: usize, events: Seq<TerminationEvent>, i: int)
    requires
        0 <= i < count,
    ensures
        ({
            let now = TerminationState::first(Platform::Windows, count as nat).run(
                count as nat,
                events,
            );
            ({
                ||| now is Done
                ||| now.index() matches Some(index) && i < index
                ||| now matches TerminationState::Closing { index } && index == i
            }) ==> dealt_with(count as nat, events, i)
        }),
    decreases events.len(),
{
    if events.len() > 0 {
        passed_is_dealt_with(count, events.drop_last(), i);
        every_process_is_tried_once(count, events.drop_last());
        windows_has_no_shared_grace_period(count, events.drop_last());
    }
}

/// On Windows every process has a grace period of its own.
pub proof fn windows_has_no_shared_grace_period(count: usize, events: Seq<TerminationEvent>)
    ensures
        ({
            let now = TerminationState::first(Platform::Windows, count as nat).run(
                count as nat,
                events,
            );
            !(now is GraceClock) && !(now is GracePause)
        }),
    decreases events.len(),
{
    if events.len() > 0 {
        windows_has_no_shared_grace_period(count, events.drop_last());
    }
}

/// Without processor groups no process is touched: there is only the wait.
pub proof fn other_platforms_only_wait(count: usize, events: Seq<TerminationEvent>)
    ensures
        ({
            let now = TerminationState::first(Platform::Other, count as nat).run(
                count as nat,
                events,
            );
            now is GraceClock || now is GracePause || now is Done
        }),
    decreases events.len(),
{
    if events.len() > 0 {
        other_platforms_only_wait(count, events.drop_last());
    }
}

/// Force is used only on a process that the last look found still running.
pub proof fn force_only_on_survivors(
    state: TerminationState,
    count: nat,
    event: TerminationEvent,
)
    requires
        !(state is Forcing),
        state.next(count, event) is Forcing,
    ensures
        state is LastLook,
        event == (TerminationEvent::ExitCode { code: Some(STILL_ACTIVE) }),
        state.next(count, event).index() == state.index(),
{
}

/// A process that exits within its grace period is not terminated by force: once polling has read
/// its exit code, and the last look reads it again, the handle is closed.
pub proof fn graceful_exit_is_not_forced(index: usize, count: nat, code: u32)
    requires
        code != STILL_ACTIVE,
    ensures
        (TerminationState::Polling { index }).run(
            count,
            seq![
                TerminationEvent::ExitCode { code: Some(code) },
                TerminationEvent::ExitCode { code: Some(code) },
            ],
        ) == (TerminationState::Closing { index }),
{
    let look = TerminationEvent::ExitCode { code: Some(code) };
    let polling = TerminationState::Polling { index };
    assert(seq![look, look].drop_last() =~= seq![look]);
    assert(seq![look].drop_last() =~= seq![]);
    assert(polling.run(count, seq![]) == polling);
    assert(polling.run(count, seq![look]) == (TerminationState::LastLook { index }));
}

/// The wait ends when the grace period is over.
pub proof fn wait_is_limited(state: TerminationState, count: nat, millis: u64)
    requires
        state is ReadingClock || state is GraceClock,
        millis >= GRACE_PERIOD_MS,
    ensures
        ({
            let now = state.next(count, TerminationEvent::Elapsed { millis });
            now is LastLook || now is Done
        }),
{
}

/// An upper bound on the steps that are left, if no pause is made any more.
pub open spec fn steps_left(state: TerminationState, count: nat) -> int {
    let later = match state.index() {
        Some(index) => 8 * (count - index - 1),
        None => 0,
    };
    later + match state {
        TerminationState::Opening { .. } => 8,
        TerminationState::Asking { .. } => 7int,
        TerminationState::ReadingClock { .. } => 6,
        TerminationState::Polling { .. } => 5,
        TerminationState::Pausing { .. } => 4,
        TerminationState::LastLook { .. } => 3,
        TerminationState::Forcing { .. } => 2,
        TerminationState::Closing { .. } => 1,
        TerminationState::GraceClock => 2,
        TerminationState::GracePause => 1,
        TerminationState::Done => 0,
    }
}

/// Every step brings the end nearer, but for a pause, after which the clock is read again. With
/// [`wait_is_limited`], the termination comes to its end once the clock has moved on.
pub proof fn only_a_pause_goes_back(state: TerminationState, count: nat, event: TerminationEvent)
    requires
        count <= usize::MAX,
        state.is_valid(count),
        !(state is Pausing) && !(state is GracePause),
        state.next(count, event) != state,
    ensures
        0 <= steps_left(state.next(count, event), count) < steps_left(state, count),
{
}

/// What is done stays done.
pub proof fn done_is_final(count: nat, events: Seq<TerminationEvent>)
    ensures
        TerminationState::Done.run(count, events) == TerminationState::Done,
    decreases events.len(),
{
    if events.len() > 0 {
        done_is_final(count, events.drop_last());
    }
}

} // verus!
