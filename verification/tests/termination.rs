use multi_group_mining::manager::MultiGroupXmrigManager;
use multi_group_mining::termination::{
    Platform, TerminationAction, TerminationEvent, TerminationState, STILL_ACTIVE,
};

fn exit(code: Option<u32>) -> TerminationEvent {
    TerminationEvent::ExitCode { code }
}

fn elapsed(millis: u64) -> TerminationEvent {
    TerminationEvent::Elapsed { millis }
}

/// The states that a termination passes through.
fn run(pids: &Vec<u32>, platform: Platform, events: &[TerminationEvent]) -> Vec<TerminationState> {
    let mut state = TerminationState::start(platform, pids.len());
    let mut states = vec![state];
    for event in events {
        state = MultiGroupXmrigManager::terminate_all(pids, state, *event).0;
        states.push(state);
    }
    states
}

#[test]
fn nothing_to_terminate() {
    assert_eq!(
        TerminationState::start(Platform::Windows, 0),
        TerminationState::Done
    );
    assert_eq!(
        TerminationState::start(Platform::Other, 0),
        TerminationState::Done
    );
    assert!(matches!(
        TerminationState::Done.action(&vec![]),
        TerminationAction::Return
    ));
}

#[test]
fn graceful_exit_is_not_forced() {
    let states = run(
        &vec![31],
        Platform::Windows,
        &[
            TerminationEvent::Opened,
            TerminationEvent::Asked,
            elapsed(0),
            exit(Some(STILL_ACTIVE)),
            TerminationEvent::Paused,
            elapsed(201),
            exit(Some(0)),
            exit(Some(0)),
            TerminationEvent::Closed,
        ],
    );
    assert_eq!(
        states,
        vec![
            TerminationState::Opening { index: 0 },
            TerminationState::Asking { index: 0 },
            TerminationState::ReadingClock { index: 0 },
            TerminationState::Polling { index: 0 },
            TerminationState::Pausing { index: 0 },
            TerminationState::ReadingClock { index: 0 },
            TerminationState::Polling { index: 0 },
            TerminationState::LastLook { index: 0 },
            TerminationState::Closing { index: 0 },
            TerminationState::Done,
        ]
    );
}

#[test]
fn survivor_is_forced() {
    let states = run(
        &vec![31],
        Platform::Windows,
        &[
            TerminationEvent::Opened,
            TerminationEvent::Asked,
            elapsed(4999),
            exit(None),
            TerminationEvent::Paused,
            elapsed(5000),
            exit(Some(259)),
            TerminationEvent::Forced,
            TerminationEvent::Closed,
        ],
    );
    assert_eq!(states[3], TerminationState::Polling { index: 0 });
    assert_eq!(states[6], TerminationState::LastLook { index: 0 });
    assert_eq!(states[7], TerminationState::Forcing { index: 0 });
    assert_eq!(states[8], TerminationState::Closing { index: 0 });
    assert_eq!(states[9], TerminationState::Done);
}

#[test]
fn unknown_exit_code_is_not_forced() {
    let state = TerminationState::LastLook { index: 0 };
    assert_eq!(
        state.step(1, exit(None)),
        TerminationState::Closing { index: 0 }
    );
}

#[test]
fn process_that_cannot_be_opened_is_skipped() {
    let states = run(
        &vec![31, 32],
        Platform::Windows,
        &[TerminationEvent::OpenFailed, TerminationEvent::OpenFailed],
    );
    assert_eq!(
        states,
        vec![
            TerminationState::Opening { index: 0 },
            TerminationState::Opening { index: 1 },
            TerminationState::Done,
        ]
    );
}

#[test]
fn actions_follow_the_states() {
    let pids = vec![31, 4096];
    match (TerminationState::Opening { index: 1 }).action(&pids) {
        TerminationAction::Open { pid, access } => {
            assert_eq!(pid, 4096);
            assert_eq!(access, 0x000F_0000 | 0x0010_0000 | 0xFFFF);
        }
        _ => panic!("the process has to be opened"),
    }
    match (TerminationState::Asking { index: 1 }).action(&pids) {
        TerminationAction::RunTaskkill { arguments } => {
            assert_eq!(arguments, vec!["/F", "/T", "/PID", "4096"]);
        }
        _ => panic!("the process has to be asked"),
    }
    assert!(matches!(
        (TerminationState::ReadingClock { index: 1 }).action(&pids),
        TerminationAction::ReadClock
    ));
    assert!(matches!(
        (TerminationState::Polling { index: 1 }).action(&pids),
        TerminationAction::ReadExitCode
    ));
    assert!(matches!(
        (TerminationState::Pausing { index: 1 }).action(&pids),
        TerminationAction::Pause { millis: 200 }
    ));
    assert!(matches!(
        (TerminationState::LastLook { index: 1 }).action(&pids),
        TerminationAction::ReadExitCode
    ));
    assert!(matches!(
        (TerminationState::Forcing { index: 1 }).action(&pids),
        TerminationAction::Terminate { exit_code: 1 }
    ));
    assert!(matches!(
        (TerminationState::Closing { index: 1 }).action(&pids),
        TerminationAction::Close
    ));
}

#[test]
fn other_platforms_only_wait() {
    let pids = vec![31, 32];
    let states = run(
        &pids,
        Platform::Other,
        &[elapsed(0), TerminationEvent::Paused, elapsed(5001)],
    );
    assert_eq!(
        states,
        vec![
            TerminationState::GraceClock,
            TerminationState::GracePause,
            TerminationState::GraceClock,
            TerminationState::Done,
        ]
    );
    assert!(matches!(
        TerminationState::GracePause.action(&pids),
        TerminationAction::Pause { millis: 200 }
    ));
    assert!(matches!(
        TerminationState::GraceClock.action(&pids),
        TerminationAction::ReadClock
    ));
}

#[test]
fn answers_to_other_questions_leave_the_state() {
    let state = TerminationState::Opening { index: 0 };
    assert_eq!(state.step(1, TerminationEvent::Closed), state);
    assert_eq!(
        TerminationState::Done.step(1, TerminationEvent::Opened),
        TerminationState::Done
    );
}

#[test]
fn handles_are_closed() {
    let pids = vec![1, 2, 3];
    let one = [
        TerminationEvent::Opened,
        TerminationEvent::Asked,
        elapsed(5000),
        exit(Some(3)),
        TerminationEvent::Closed,
    ];
    let mut events: Vec<TerminationEvent> = Vec::new();
    for _ in 0..3 {
        events.extend_from_slice(&one);
    }
    let states = run(&pids, Platform::Windows, &events);
    assert_eq!(states.last(), Some(&TerminationState::Done));
    let opening: Vec<&TerminationState> = states
        .iter()
        .filter(|s| matches!(s, TerminationState::Opening { .. }))
        .collect();
    assert_eq!(
        opening,
        vec![
            &TerminationState::Opening { index: 0 },
            &TerminationState::Opening { index: 1 },
            &TerminationState::Opening { index: 2 },
        ]
    );
}

#[test]
fn no_survivor_is_left() {
    let pids = vec![1, 2, 3];
    let events = [
        TerminationEvent::OpenFailed,
        TerminationEvent::Opened,
        TerminationEvent::Asked,
        elapsed(5000),
        exit(Some(7)),
        TerminationEvent::Closed,
        TerminationEvent::Opened,
        TerminationEvent::Asked,
        elapsed(5000),
        exit(Some(STILL_ACTIVE)),
        TerminationEvent::Closed,
        TerminationEvent::Forced,
        TerminationEvent::Closed,
    ];
    let states = run(&pids, Platform::Windows, &events);
    assert_eq!(states[1], TerminationState::Opening { index: 1 });
    assert_eq!(states[5], TerminationState::Closing { index: 1 });
    assert_eq!(states[10], TerminationState::Forcing { index: 2 });
    assert_eq!(states[11], TerminationState::Forcing { index: 2 });
    assert_eq!(states[13], TerminationState::Done);
}
