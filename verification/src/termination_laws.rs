//! What a termination does to the processes of its list, seen by the actions that it hands out and by
//! what came of them.

use crate::termination::{Platform, TerminationAction, TerminationEvent, TerminationState};
use crate::text;
use vstd::prelude::*;

verus! {

/// `actions` are what a termination of `pids` asks for when it is told `events`: one action before
/// each event, and one after the last.
pub open spec fn hands_out(
    platform: Platform,
    pids: Seq<u32>,
    events: Seq<TerminationEvent>,
    actions: Seq<TerminationAction>,
) -> bool {
    &&& actions.len() == events.len() + 1
    &&& forall|k: int|
        0 <= k <= events.len() ==> TerminationState::first(platform, pids.len()).run(
            pids.len(),
            events.take(k),
        ).asks_for(pids, #[trigger] actions[k])
}

/// The ids that the first `n` actions asked to open, each once it has been answered, in order.
pub open spec fn ids_tried(
    events: Seq<TerminationEvent>,
    actions: Seq<TerminationAction>,
    n: int,
) -> Seq<u32>
    decreases n,
{
    if n <= 0 {
        seq![]
    } else {
        let earlier = ids_tried(events, actions, n - 1);
        match actions[n - 1] {
            TerminationAction::Open { pid, .. } => if events[n - 1] is Opened || events[n
                - 1] is OpenFailed {
                earlier.push(pid)
            } else {
                earlier
            },
            _ => earlier,
        }
    }
}

/// The ids among them that could be opened.
pub open spec fn ids_opened(
    events: Seq<TerminationEvent>,
    actions: Seq<TerminationAction>,
    n: int,
) -> Seq<u32>
    decreases n,
{
    if n <= 0 {
        seq![]
    } else {
        let earlier = ids_opened(events, actions, n - 1);
        match actions[n - 1] {
            TerminationAction::Open { pid, .. } => if events[n - 1] is Opened {
                earlier.push(pid)
            } else {
                earlier
            },
            _ => earlier,
        }
    }
}

/// The command lines of `taskkill` that the first `n` actions asked to run, and that were run.
pub open spec fn taskkills(
    events: Seq<TerminationEvent>,
    actions: Seq<TerminationAction>,
    n: int,
) -> Seq<Seq<Seq<char>>>
    decreases n,
{
    if n <= 0 {
        seq![]
    } else {
        let earlier = taskkills(events, actions, n - 1);
        match actions[n - 1] {
            TerminationAction::RunTaskkill { arguments } => if events[n - 1] is Asked {
                earlier.push(text::texts(arguments@))
            } else {
                earlier
            },
            _ => earlier,
        }
    }
}

/// How many of the first `n` actions asked to close a process, and were done.
pub open spec fn closings(
    events: Seq<TerminationEvent>,
    actions: Seq<TerminationAction>,
    n: int,
) -> nat
    decreases n,
{
    if n <= 0 {
        0
    } else {
        let earlier = closings(events, actions, n - 1);
        if actions[n - 1] is Close && events[n - 1] is Closed {
            earlier + 1
        } else {
            earlier
        }
    }
}

/// The exit code that was read last, before the action at place `n`.
pub open spec fn last_reading(
    events: Seq<TerminationEvent>,
    actions: Seq<TerminationAction>,
    n: int,
) -> Option<Option<u32>>
    decreases n,
{
    if n <= 0 {
        None
    } else {
        match (actions[n - 1], events[n - 1]) {
            (TerminationAction::ReadExitCode, TerminationEvent::ExitCode { code }) => Some(code),
            _ => last_reading(events, actions, n - 1),
        }
    }
}

/// The command line of `taskkill` for a process.
pub open spec fn kill_line() -> spec_fn(u32) -> Seq<Seq<char>> {
    |pid: u32| seq!["/F"@, "/T"@, "/PID"@, text::decimal(pid as nat)]
}

/// Where the termination stands after `n` events, and what it has done by then.
proof fn progress(
    pids: Seq<u32>,
    events: Seq<TerminationEvent>,
    actions: Seq<TerminationAction>,
    n: int,
)
    requires
        pids.len() <= usize::MAX,
        hands_out(Platform::Windows, pids, events, actions),
        0 <= n <= events.len(),
    ensures
        ({
            let now = TerminationState::first(Platform::Windows, pids.len()).run(
                pids.len(),
                events.take(n),
            );
            let opened = ids_opened(events, actions, n);
            let killed = taskkills(events, actions, n);
            &&& now.is_valid(pids.len())
            &&& !(now is GraceClock) && !(now is GracePause)
            &&& ids_tried(events, actions, n) =~= pids.take(now.tried_by_now(pids.len()) as int)
            &&& killed =~= opened.take(killed.len() as int).map_values(kill_line())
            &&& opened.len() == killed.len() + (if now is Asking {
                1int
            } else {
                0
            })
            &&& opened.len() == closings(events, actions, n) + (if now.holds_handle() {
                1int
            } else {
                0
            })
            &&& now.holds_handle() ==> opened.last() == pids[now.index()->Some_0 as int]
            &&& now is Forcing ==> last_reading(events, actions, n) == Some(Some(259u32))
        }),
    decreases n,
{
    let first = TerminationState::first(Platform::Windows, pids.len());
    if n == 0 {
        assert(events.take(0) =~= seq![]);
    } else {
        progress(pids, events, actions, n - 1);
        assert(events.take(n).drop_last() =~= events.take(n - 1));
        assert(events.take(n).last() == events[n - 1]);
        let before = first.run(pids.len(), events.take(n - 1));
        assert(before.asks_for(pids, actions[n - 1]));
        if before is Opening {
            let index = before->Opening_index;
            assert(pids.take(index + 1) =~= pids.take(index as int).push(pids[index as int]));
        }
        let killed = taskkills(events, actions, n - 1);
        let opened = ids_opened(events, actions, n - 1);
        let opened_now = ids_opened(events, actions, n);
        assert(opened_now.take(killed.len() as int) =~= opened.take(killed.len() as int));
        if before is Asking && events[n - 1] is Asked {
            assert(opened_now.take((killed.len() + 1) as int) =~= opened.take(killed.len() as int).push(
                opened.last(),
            ));
            assert(taskkills(events, actions, n) =~= killed.push(kill_line()(opened.last())));
        }
    }
}

/// On Windows the processes of the list are opened in turn: the ids that were asked to be opened, in
/// order, are a beginning of the list at any moment, and the whole list at the end.
pub proof fn processes_are_opened_in_turn(
    pids: Seq<u32>,
    events: Seq<TerminationEvent>,
    actions: Seq<TerminationAction>,
)
    requires
        pids.len() <= usize::MAX,
        hands_out(Platform::Windows, pids, events, actions),
    ensures
        ids_tried(events, actions, events.len() as int).is_prefix_of(pids),
        actions.last() is Return ==> ids_tried(events, actions, events.len() as int) == pids,
        actions.last() matches TerminationAction::Open { pid, access } ==> {
            let tried = ids_tried(events, actions, events.len() as int);
            tried.len() < pids.len() && pid == pids[tried.len() as int] && access == 0x1F_FFFF
        },
{
    let n = events.len() as int;
    progress(pids, events, actions, n);
    let now = TerminationState::first(Platform::Windows, pids.len()).run(
        pids.len(),
        events.take(n),
    );
    assert(now.asks_for(pids, actions[n]));
    assert(pids.take(pids.len() as int) =~= pids);
}

/// On Windows every process that could be opened is killed by its own id, with its children: the
/// command lines of `taskkill` that were run, in order, name the ids that were opened, and at the end
/// all of them. What is asked to be killed is what was opened last.
pub proof fn opened_processes_are_killed(
    pids: Seq<u32>,
    events: Seq<TerminationEvent>,
    actions: Seq<TerminationAction>,
)
    requires
        pids.len() <= usize::MAX,
        hands_out(Platform::Windows, pids, events, actions),
    ensures
        ({
            let n = events.len() as int;
            let opened = ids_opened(events, actions, n);
            &&& taskkills(events, actions, n).is_prefix_of(opened.map_values(kill_line()))
            &&& actions.last() is Return ==> taskkills(events, actions, n) == opened.map_values(
                kill_line(),
            )
            &&& actions.last() matches TerminationAction::RunTaskkill { arguments } ==> {
                &&& opened.len() > 0
                &&& text::texts(arguments@) == seq![
                    "/F"@,
                    "/T"@,
                    "/PID"@,
                    text::decimal(opened.last() as nat),
                ]
            }
        }),
{
    let n = events.len() as int;
    progress(pids, events, actions, n);
    let now = TerminationState::first(Platform::Windows, pids.len()).run(
        pids.len(),
        events.take(n),
    );
    assert(now.asks_for(pids, actions[n]));
    let opened = ids_opened(events, actions, n);
    let killed = taskkills(events, actions, n);
    assert(killed =~= opened.map_values(kill_line()).take(killed.len() as int));
    if killed.len() == opened.len() {
        assert(killed =~= opened.map_values(kill_line()));
    }
}

/// On Windows every process that was opened has been closed at the end, and before another one is
/// opened; it is asked to exit before it is closed.
pub proof fn opened_processes_are_closed(
    pids: Seq<u32>,
    events: Seq<TerminationEvent>,
    actions: Seq<TerminationAction>,
)
    requires
        pids.len() <= usize::MAX,
        hands_out(Platform::Windows, pids, events, actions),
    ensures
        ({
            let n = events.len() as int;
            let opened = ids_opened(events, actions, n).len();
            &&& actions.last() is Return || actions.last() is Open ==> closings(events, actions, n)
                == opened
            &&& actions.last() is Close ==> {
                &&& closings(events, actions, n) + 1 == opened
                &&& taskkills(events, actions, n).len() == opened
            }
        }),
{
    let n = events.len() as int;
    progress(pids, events, actions, n);
    let now = TerminationState::first(Platform::Windows, pids.len()).run(
        pids.len(),
        events.take(n),
    );
    assert(now.asks_for(pids, actions[n]));
}

/// On Windows force is asked for only where the exit code that was read last, 259, is that of a
/// process which still runs; the process then gets the exit code 1.
pub proof fn force_follows_a_look(
    pids: Seq<u32>,
    events: Seq<TerminationEvent>,
    actions: Seq<TerminationAction>,
)
    requires
        pids.len() <= usize::MAX,
        hands_out(Platform::Windows, pids, events, actions),
        actions.last() is Terminate,
    ensures
        last_reading(events, actions, events.len() as int) == Some(Some(259u32)),
        actions.last() == (TerminationAction::Terminate { exit_code: 1 }),
{
    let n = events.len() as int;
    progress(pids, events, actions, n);
    let now = TerminationState::first(Platform::Windows, pids.len()).run(
        pids.len(),
        events.take(n),
    );
    assert(now.asks_for(pids, actions[n]));
}

/// Where there are no processes there is nothing to do. Else Windows begins with the first process,
/// and another platform with the wait.
pub proof fn beginning(platform: Platform, count: nat)
    ensures
        TerminationState::first(platform, count) is Done <==> count == 0,
        count > 0 && platform == Platform::Windows ==> TerminationState::first(platform, count) == (
        TerminationState::Opening { index: 0 }),
        count > 0 && platform == Platform::Other ==> TerminationState::first(platform, count)
            is GraceClock,
{
}

/// A process that was opened is asked to exit, then waited for; one that could not be opened is
/// passed over, and so is one that was closed: the next one comes, or the end.
pub proof fn one_process_after_the_other(index: usize, count: nat)
    requires
        index < count <= usize::MAX,
    ensures
        ({
            let opening = TerminationState::Opening { index };
            let asking = TerminationState::Asking { index };
            let closing = TerminationState::Closing { index };
            let asked = asking.next(count, TerminationEvent::Asked);
            let missed = opening.next(count, TerminationEvent::OpenFailed);
            &&& opening.next(count, TerminationEvent::Opened) == asking
            &&& asked == (TerminationState::ReadingClock { index })
            &&& missed == closing.next(count, TerminationEvent::Closed)
            &&& index + 1 == count ==> missed is Done
            &&& index + 1 < count ==> missed == (TerminationState::Opening {
                index: (index + 1) as usize,
            })
        }),
{
}

/// A process has five seconds to exit. Until then it is looked at again and again, and after them
/// once more; a look that finds it gone ends the wait at once, and one that finds it running, or that
/// fails, makes the wait go on after a pause of 200 milliseconds.
pub proof fn grace_period_of_a_process(index: usize, count: nat, millis: u64, code: Option<u32>)
    ensures
        ({
            let clock = TerminationState::ReadingClock { index };
            let polling = TerminationState::Polling { index };
            let timed = clock.next(count, TerminationEvent::Elapsed { millis });
            let looked = polling.next(count, TerminationEvent::ExitCode { code });
            &&& millis < 5000 ==> timed == polling
            &&& millis >= 5000 ==> timed == (TerminationState::LastLook { index })
            &&& code is Some && code != Some(259u32) ==> looked == (TerminationState::LastLook {
                index,
            })
            &&& code is None || code == Some(259u32) ==> looked == (TerminationState::Pausing {
                index,
            })
            &&& looked.next(count, TerminationEvent::Paused) == if looked is Pausing {
                clock
            } else {
                looked
            }
        }),
{
}

/// The last look decides: force for a process that it finds running, and for no other; either way
/// the handle is closed afterwards.
pub proof fn last_look_decides(index: usize, count: nat, code: Option<u32>)
    ensures
        ({
            let look = TerminationState::LastLook { index };
            let looked = look.next(count, TerminationEvent::ExitCode { code });
            let closing = TerminationState::Closing { index };
            &&& code == Some(259u32) ==> looked == (TerminationState::Forcing { index })
            &&& code != Some(259u32) ==> looked == closing
            &&& looked.next(count, TerminationEvent::Forced) == closing
        }),
{
}

/// Without processor groups the wait is over after five seconds, and not before; until then there
/// are pauses.
pub proof fn shared_grace_period(count: nat, millis: u64)
    ensures
        ({
            let timed = TerminationState::GraceClock.next(
                count,
                TerminationEvent::Elapsed { millis },
            );
            &&& timed is Done <==> millis >= 5000
            &&& millis < 5000 ==> timed is GracePause
            &&& TerminationState::GracePause.next(count, TerminationEvent::Paused) is GraceClock
        }),
{
}

/// The event is an answer to what the state asks for.
pub open spec fn answers(state: TerminationState, event: TerminationEvent) -> bool {
    match state {
        TerminationState::Opening { .. } => event is Opened || event is OpenFailed,
        TerminationState::Asking { .. } => event is Asked,
        TerminationState::ReadingClock { .. } => event is Elapsed,
        TerminationState::Polling { .. } => event is ExitCode,
        TerminationState::Pausing { .. } => event is Paused,
        TerminationState::LastLook { .. } => event is ExitCode,
        TerminationState::Forcing { .. } => event is Forced,
        TerminationState::Closing { .. } => event is Closed,
        TerminationState::GraceClock => event is Elapsed,
        TerminationState::GracePause => event is Paused,
        TerminationState::Done => false,
    }
}

/// A termination moves on exactly when its question is answered, and stays with one process until it
/// is done with it.
pub proof fn only_answers_count(state: TerminationState, count: nat, event: TerminationEvent)
    requires
        count <= usize::MAX,
        state.is_valid(count),
    ensures
        state.next(count, event) != state <==> answers(state, event),
        state.next(count, event).index() != state.index() && state.index() is Some ==> (state
            is Opening && event is OpenFailed) || (state is Closing && event is Closed),
{
}

/// What each state asks for, in plain numbers: the process at the place that is being served is
/// opened with all rights (0x1FFFFF), killed by its id, and terminated with exit code 1; pauses last
/// 200 milliseconds.
pub proof fn what_is_asked_for(
    state: TerminationState,
    pids: Seq<u32>,
    action: TerminationAction,
)
    requires
        state.is_valid(pids.len()),
        state.asks_for(pids, action),
    ensures
        action is Open <==> state is Opening,
        action is RunTaskkill <==> state is Asking,
        action is ReadClock <==> state is ReadingClock || state is GraceClock,
        action is ReadExitCode <==> state is Polling || state is LastLook,
        action is Pause <==> state is Pausing || state is GracePause,
        action is Terminate <==> state is Forcing,
        action is Close <==> state is Closing,
        action is Return <==> state is Done,
        action matches TerminationAction::Open { pid, access } ==> {
            pid == pids[state.index()->Some_0 as int] && access == 0x1F_FFFF
        },
        action matches TerminationAction::RunTaskkill { arguments } ==> text::texts(arguments@)
            == seq![
            "/F"@,
            "/T"@,
            "/PID"@,
            text::decimal(pids[state.index()->Some_0 as int] as nat),
        ],
        action matches TerminationAction::Pause { millis } ==> millis == 200,
        action matches TerminationAction::Terminate { exit_code } ==> exit_code == 1,
{
}

} // verus!
