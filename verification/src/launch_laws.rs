//! What holds of every launch of all groups, whatever happens on the way.

use crate::launch::{SpawnAction, SpawnError, SpawnEvent, SpawnPlan, SpawnState};
use crate::manager::ManagerView;
use crate::text;
use vstd::prelude::*;

verus! {

/// The manager, and the state of the launch, after a launch that began with `manager` has seen
/// `events`.
pub open spec fn spawn_run(
    manager: ManagerView,
    plan: SpawnPlan,
    events: Seq<SpawnEvent>,
) -> (ManagerView, SpawnState)
    decreases events.len(),
{
    if events.len() == 0 {
        (manager, SpawnState::CheckBinary)
    } else {
        let (now, state) = spawn_run(manager, plan, events.drop_last());
        (
            now.after_spawn_event(state, events.last()),
            state.next(plan, now.instances.len(), events.last()),
        )
    }
}

/// Ids of the processes that the launch started, in order.
pub open spec fn launched(
    manager: ManagerView,
    plan: SpawnPlan,
    events: Seq<SpawnEvent>,
) -> Seq<u32>
    decreases events.len(),
{
    if events.len() == 0 {
        seq![]
    } else {
        let earlier = launched(manager, plan, events.drop_last());
        match spawn_run(manager, plan, events.drop_last()).1.started(events.last()) {
            Some((group, pid)) => earlier.push(pid),
            None => earlier,
        }
    }
}

/// A launch in this state has started processes for the first `count` of `groups` groups.
pub open spec fn has_launched(state: SpawnState, groups: nat, count: nat) -> bool {
    match state {
        SpawnState::CheckBinary => count == 0,
        SpawnState::PrepareLogs { group } => count == group < groups,
        SpawnState::FindWrapper { group, .. } => count == group < groups,
        SpawnState::Launch { group, .. } => count == group < groups,
        SpawnState::Finished => count == groups,
        SpawnState::Failed { error } => match error {
            SpawnError::BinaryNotFound { .. } => count == 0,
            SpawnError::LogDirectory { .. } => count < groups,
            SpawnError::WrapperNotInitialized => count < groups,
            SpawnError::LaunchFailed { group, .. } => count == group < groups,
        },
    }
}

/// `after` is `before` with the first groups running as the processes `pids`, and nothing else
/// changed.
pub open spec fn runs_as(before: ManagerView, after: ManagerView, pids: Seq<u32>) -> bool {
    &&& pids.len() <= before.instances.len()
    &&& after.instances.len() == before.instances.len()
    &&& after.shut_down == before.shut_down
    &&& forall|i: int|
        0 <= i < before.instances.len() ==> #[trigger] after.instances[i] == if i < pids.len() {
            crate::instance::InstanceView {
                wrapper_pid: Some(pids[i]),
                ..before.instances[i]
            }
        } else {
            before.instances[i]
        }
}

/// Groups are launched one after the other, each at most once, and exactly the processes that were
/// started are noted, each with its group: at every moment, after success and after failure.
pub proof fn launch_notes_what_it_started(
    manager: ManagerView,
    plan: SpawnPlan,
    events: Seq<SpawnEvent>,
)
    requires
        manager.instances.len() <= usize::MAX,
    ensures
        ({
            let (now, state) = spawn_run(manager, plan, events);
            let pids = launched(manager, plan, events);
            &&& runs_as(manager, now, pids)
            &&& has_launched(state, manager.instances.len(), pids.len())
            &&& state.is_valid(now.instances.len())
        }),
    decreases events.len(),
{
    if events.len() > 0 {
        launch_notes_what_it_started(manager, plan, events.drop_last());
    }
}

/// A launch succeeds only with one process for every group, and the ids that the manager then hands
/// out are those of these processes.
pub proof fn success_is_one_process_per_group(
    manager: ManagerView,
    plan: SpawnPlan,
    events: Seq<SpawnEvent>,
)
    requires
        manager.instances.len() <= usize::MAX,
        spawn_run(manager, plan, events).1 is Finished,
    ensures
        launched(manager, plan, events).len() == manager.instances.len(),
        crate::manager::pids_of(spawn_run(manager, plan, events).0.instances) == launched(
            manager,
            plan,
            events,
        ),
{
    launch_notes_what_it_started(manager, plan, events);
    pids_of_running(
        spawn_run(manager, plan, events).0.instances,
        launched(manager, plan, events),
    );
}

/// Nothing that a first launch started is lost, even if it failed: the ids that the manager hands
/// out for termination are those of the processes that were started.
pub proof fn started_processes_can_be_terminated(
    manager: ManagerView,
    plan: SpawnPlan,
    events: Seq<SpawnEvent>,
)
    requires
        manager.instances.len() <= usize::MAX,
        forall|i: int|
            0 <= i < manager.instances.len() ==> (#[trigger] manager.instances[i]).wrapper_pid
                is None,
    ensures
        crate::manager::pids_of(spawn_run(manager, plan, events).0.instances) == launched(
            manager,
            plan,
            events,
        ),
{
    launch_notes_what_it_started(manager, plan, events);
    pids_of_running(
        spawn_run(manager, plan, events).0.instances,
        launched(manager, plan, events),
    );
}

/// Where the first instances run as `pids`, and the others do not run, these are all ids.
proof fn pids_of_running(instances: Seq<crate::instance::InstanceView>, pids: Seq<u32>)
    requires
        pids.len() <= instances.len(),
        forall|i: int|
            0 <= i < instances.len() ==> (#[trigger] instances[i]).wrapper_pid == if i < pids.len() {
                Some(pids[i])
            } else {
                None
            },
    ensures
        crate::manager::pids_of(instances) == pids,
    decreases instances.len(),
{
    if instances.len() == 0 {
        assert(pids =~= seq![]);
    } else if pids.len() == instances.len() {
        assert(instances.last() == instances[instances.len() - 1]);
        pids_of_running(instances.drop_last(), pids.drop_last());
        assert(pids.drop_last().push(pids.last()) =~= pids);
    } else {
        assert(instances.last() == instances[instances.len() - 1]);
        pids_of_running(instances.drop_last(), pids);
    }
}

/// Without the binary nothing is launched, and the manager stays as it was.
pub proof fn no_launch_without_binary(
    manager: ManagerView,
    plan: SpawnPlan,
    events: Seq<SpawnEvent>,
)
    requires
        events.len() > 0,
        events[0] == (SpawnEvent::BinaryChecked { exists: false }),
    ensures
        spawn_run(manager, plan, events) == (
            manager,
            SpawnState::Failed { error: SpawnError::BinaryNotFound { path: plan.binary.shown } },
        ),
    decreases events.len(),
{
    if events.len() > 1 {
        no_launch_without_binary(manager, plan, events.drop_last());
    } else {
        assert(spawn_run(manager, plan, events.drop_last()) == (manager, SpawnState::CheckBinary));
    }
}

/// What is finished, or has failed, stays so, and changes nothing more.
pub proof fn end_of_launch_is_final(
    manager: ManagerView,
    plan: SpawnPlan,
    events: Seq<SpawnEvent>,
    more: Seq<SpawnEvent>,
)
    requires
        spawn_run(manager, plan, events).1 is Finished || spawn_run(manager, plan, events).1
            is Failed,
    ensures
        spawn_run(manager, plan, events + more) == spawn_run(manager, plan, events),
    decreases more.len(),
{
    if more.len() == 0 {
        assert(events + more =~= events);
    } else {
        end_of_launch_is_final(manager, plan, events, more.drop_last());
        assert((events + more).drop_last() =~= events + more.drop_last());
    }
}

/// Each group has a log file of its own.
pub proof fn log_files_are_distinct(a: nat, b: nat)
    requires
        a != b,
    ensures
        crate::launch::log_file(a) != crate::launch::log_file(b),
{
    if crate::launch::log_file(a) == crate::launch::log_file(b) {
        let prefix = "xmrig_group"@;
        let suffix = ".log"@;
        let file = crate::launch::log_file(a);
        let from = prefix.len() as int;
        let to = file.len() - suffix.len();
        assert(file.subrange(from, to) =~= crate::text::decimal(a));
        assert(crate::launch::log_file(b).subrange(from, to) =~= crate::text::decimal(b));
        crate::text::decimal_is_injective(a, b);
    }
}

/// The process wrappers of two groups are given different command lines: each is told its own group.
pub proof fn command_lines_are_distinct(
    plan: SpawnPlan,
    a: nat,
    b: nat,
    parent_a: u32,
    parent_b: u32,
    xmrig_a: Seq<Seq<char>>,
    xmrig_b: Seq<Seq<char>>,
)
    requires
        a != b,
    ensures
        crate::launch::wrapper_arguments(plan, a, parent_a, xmrig_a)
            != crate::launch::wrapper_arguments(plan, b, parent_b, xmrig_b),
{
    let line_a = crate::launch::wrapper_arguments(plan, a, parent_a, xmrig_a);
    let line_b = crate::launch::wrapper_arguments(plan, b, parent_b, xmrig_b);
    assert(line_a[1] == crate::text::decimal(a));
    assert(line_b[1] == crate::text::decimal(b));
    if line_a == line_b {
        crate::text::decimal_is_injective(a, b);
    }
}

/// `actions` are what a launch that began with `manager` asks for when it is told `events`: one action
/// before each event, and one after the last.
pub open spec fn hands_out(
    manager: ManagerView,
    plan: SpawnPlan,
    events: Seq<SpawnEvent>,
    actions: Seq<SpawnAction>,
) -> bool {
    &&& actions.len() == events.len() + 1
    &&& forall|k: int|
        0 <= k <= events.len() ==> {
            let (now, state) = spawn_run(manager, plan, events.take(k));
            now.spawn_asks_for(plan, state, #[trigger] actions[k])
        }
}

/// The launches among the first `n` actions that started a process: its group, its command line and
/// its id, in order.
pub open spec fn launches(
    events: Seq<SpawnEvent>,
    actions: Seq<SpawnAction>,
    n: int,
) -> Seq<(usize, Seq<Seq<char>>, u32)>
    decreases n,
{
    if n <= 0 {
        seq![]
    } else {
        let earlier = launches(events, actions, n - 1);
        match (actions[n - 1], events[n - 1]) {
            (SpawnAction::Launch { group, arguments }, SpawnEvent::Launched { pid }) => earlier.push(
                (group, text::texts(arguments@), pid),
            ),
            _ => earlier,
        }
    }
}

/// The command line `line` runs xmrig for `group` with the credentials of `instance`, and with the
/// threads and the options of the plan.
pub open spec fn is_for(
    line: Seq<Seq<char>>,
    plan: SpawnPlan,
    group: nat,
    instance: crate::instance::InstanceView,
) -> bool {
    &&& line.len() > 4
    &&& line[0] == "--group"@
    &&& line[1] == text::decimal(group)
    &&& line.contains("--http-port="@ + text::decimal(instance.http_port as nat))
    &&& line.contains("--http-access-token="@ + instance.http_token)
    &&& line.contains("--donate-level=1"@)
    &&& line.contains("--verbose"@)
    &&& plan.cpu_threads_per_group > 0 ==> line.contains(
        "--threads="@ + text::decimal(plan.cpu_threads_per_group as nat),
    )
    &&& plan.binary.argument matches Some(path) ==> line[3] == path@
    &&& forall|i: int|
        0 <= i < plan.connection_type_args@.len() ==> line.contains(
            (#[trigger] plan.connection_type_args@[i])@,
        )
    &&& forall|i: int|
        0 <= i < plan.extra_options@.len() ==> line.contains((#[trigger] plan.extra_options@[i])@)
}

/// The command line for a group is for that group.
proof fn line_is_for_its_group(
    plan: SpawnPlan,
    group: nat,
    parent_pid: u32,
    instance: crate::instance::InstanceView,
    log_path: Option<Seq<char>>,
)
    ensures
        is_for(
            crate::launch::wrapper_arguments(
                plan,
                group,
                parent_pid,
                crate::launch::xmrig_arguments(
                    plan,
                    instance.http_port,
                    instance.http_token,
                    log_path,
                ),
            ),
            plan,
            group,
            instance,
        ),
{
    let xmrig = crate::launch::xmrig_arguments(
        plan,
        instance.http_port,
        instance.http_token,
        log_path,
    );
    let line = crate::launch::wrapper_arguments(plan, group, parent_pid, xmrig);
    crate::command_laws::command_line_of_xmrig(
        plan,
        instance.http_port,
        instance.http_token,
        log_path,
    );
    crate::command_laws::command_line_of_the_wrapper(plan, group, parent_pid, xmrig);
    assert forall|i: int| 0 <= i < xmrig.len() implies line[i + 4] == #[trigger] xmrig[i] by {
        assert(line.skip(4)[i] == line[i + 4]);
    }
    let connection = plan.connection_type_args@;
    let options = plan.extra_options@;
    let http = connection.len() + if log_path is Some {
        1int
    } else {
        0
    };
    let verbose = if plan.cpu_threads_per_group != 0 {
        http + 4
    } else {
        http + 3
    };
    assert(line[http + 4] == xmrig[http]);
    assert(line[http + 1 + 4] == xmrig[http + 1]);
    assert(line[http + 2 + 4] == xmrig[http + 2]);
    assert(plan.cpu_threads_per_group > 0 ==> line[http + 3 + 4] == xmrig[http + 3]);
    assert(line[verbose + 4] == xmrig[verbose]);
    assert forall|i: int| 0 <= i < connection.len() implies line.contains(
        (#[trigger] connection[i])@,
    ) by {
        assert(line[i + 4] == xmrig[i]);
    }
    assert forall|i: int| 0 <= i < options.len() implies line.contains(
        (#[trigger] options[i])@,
    ) by {
        assert(xmrig[verbose + 1 + i] == options[verbose + 1 + i - verbose - 1]@);
        assert(line[verbose + 1 + i + 4] == xmrig[verbose + 1 + i]);
    }
}

/// Where a launch stands after `n` events, and what it has launched by then.
proof fn launch_progress(
    manager: ManagerView,
    plan: SpawnPlan,
    events: Seq<SpawnEvent>,
    actions: Seq<SpawnAction>,
    n: int,
)
    requires
        manager.instances.len() <= usize::MAX,
        hands_out(manager, plan, events, actions),
        0 <= n <= events.len(),
    ensures
        ({
            let done = launches(events, actions, n);
            let pids = launched(manager, plan, events.take(n));
            &&& done.len() == pids.len()
            &&& forall|i: int|
                0 <= i < done.len() ==> {
                    &&& (#[trigger] done[i]).0 == i
                    &&& is_for(done[i].1, plan, i as nat, manager.instances[i])
                    &&& done[i].2 == pids[i]
                }
        }),
    decreases n,
{
    if n == 0 {
        assert(events.take(0) =~= seq![]);
    } else {
        launch_progress(manager, plan, events, actions, n - 1);
        launch_notes_what_it_started(manager, plan, events.take(n - 1));
        assert(events.take(n).drop_last() =~= events.take(n - 1));
        assert(events.take(n).last() == events[n - 1]);
        let (now, state) = spawn_run(manager, plan, events.take(n - 1));
        assert(now.spawn_asks_for(plan, state, actions[n - 1]));
        if let SpawnState::Launch { group, log_path, parent_pid } = state {
            line_is_for_its_group(
                plan,
                group as nat,
                parent_pid,
                manager.instances[group as int],
                crate::launch::path_text(log_path),
            );
            assert(now.instances[group as int] == manager.instances[group as int]);
        }
    }
}

/// The processes are launched for the groups 0, 1, 2 and so on, each with the command line for its
/// group, and noted there. When the launch hands back the path of the binary, there is one for every
/// group, and the path is that of the plan.
pub proof fn groups_are_launched_in_turn(
    manager: ManagerView,
    plan: SpawnPlan,
    events: Seq<SpawnEvent>,
    actions: Seq<SpawnAction>,
)
    requires
        manager.instances.len() <= usize::MAX,
        hands_out(manager, plan, events, actions),
    ensures
        ({
            let done = launches(events, actions, events.len() as int);
            let now = spawn_run(manager, plan, events).0;
            &&& done.len() <= manager.instances.len() == now.instances.len()
            &&& forall|i: int|
                0 <= i < done.len() ==> {
                    &&& (#[trigger] done[i]).0 == i
                    &&& is_for(done[i].1, plan, i as nat, manager.instances[i])
                    &&& now.instances[i].wrapper_pid == Some(done[i].2)
                }
            &&& forall|i: int|
                done.len() <= i < manager.instances.len() ==> #[trigger] now.instances[i]
                    == manager.instances[i]
            &&& actions.last() matches SpawnAction::Return { binary } ==> done.len()
                == manager.instances.len() && binary == plan.binary
        }),
{
    let n = events.len() as int;
    launch_progress(manager, plan, events, actions, n);
    assert(events.take(n) =~= events);
    launch_notes_what_it_started(manager, plan, events);
    let (now, state) = spawn_run(manager, plan, events);
    assert(now.spawn_asks_for(plan, state, actions[n]));
    let done = launches(events, actions, n);
    let pids = launched(manager, plan, events);
    assert forall|i: int| 0 <= i < done.len() implies {
        &&& (#[trigger] done[i]).0 == i
        &&& is_for(done[i].1, plan, i as nat, manager.instances[i])
        &&& now.instances[i].wrapper_pid == Some(done[i].2)
    } by {
        assert(now.instances[i].wrapper_pid == Some(pids[i]));
    }
}

/// Good answers lead on: with the binary there, the first group comes, and a group whose log
/// directory, wrapper and process are there is followed by the next one, or by the end. The process
/// is launched with the log path and the parent that were told, whatever they are.
pub proof fn good_answers_lead_on(
    plan: SpawnPlan,
    groups: nat,
    group: usize,
    log_path: Option<String>,
    parent_pid: u32,
    pid: u32,
)
    requires
        group < groups <= usize::MAX,
    ensures
        ({
            let begun = SpawnState::CheckBinary.next(
                plan,
                groups,
                SpawnEvent::BinaryChecked { exists: true },
            );
            let found = (SpawnState::PrepareLogs { group }).next(
                plan,
                groups,
                SpawnEvent::LogDirectoryReady { log_path },
            ).next(plan, groups, SpawnEvent::WrapperFound { parent_pid });
            let after = found.next(plan, groups, SpawnEvent::Launched { pid });
            &&& begun == (SpawnState::PrepareLogs { group: 0 })
            &&& SpawnState::CheckBinary.next(
                plan,
                0,
                SpawnEvent::BinaryChecked { exists: true },
            ) is Finished
            &&& found == (SpawnState::Launch { group, log_path, parent_pid })
            &&& found.started(SpawnEvent::Launched { pid }) == Some((group, pid))
            &&& group + 1 < groups ==> after == (SpawnState::PrepareLogs {
                group: (group + 1) as usize,
            })
            &&& group + 1 == groups ==> after is Finished
        }),
{
}

/// Bad answers end the launch with their own error.
pub proof fn bad_answers_end_the_launch(
    plan: SpawnPlan,
    groups: nat,
    group: usize,
    log_path: Option<String>,
    parent_pid: u32,
    cause: String,
)
    ensures
        SpawnState::CheckBinary.next(plan, groups, SpawnEvent::BinaryChecked { exists: false }) == (
        SpawnState::Failed { error: SpawnError::BinaryNotFound { path: plan.binary.shown } }),
        (SpawnState::PrepareLogs { group }).next(
            plan,
            groups,
            SpawnEvent::LogDirectoryFailed { cause },
        ) == (SpawnState::Failed { error: SpawnError::LogDirectory { cause } }),
        (SpawnState::FindWrapper { group, log_path }).next(plan, groups, SpawnEvent::WrapperMissing)
            == (SpawnState::Failed { error: SpawnError::WrapperNotInitialized }),
        (SpawnState::Launch { group, log_path, parent_pid }).next(
            plan,
            groups,
            SpawnEvent::LaunchFailed { cause },
        ) == (SpawnState::Failed { error: SpawnError::LaunchFailed { group, cause } }),
{
}

/// The event is an answer to what the state asks for.
pub open spec fn answers(state: SpawnState, event: SpawnEvent) -> bool {
    match state {
        SpawnState::CheckBinary => event is BinaryChecked,
        SpawnState::PrepareLogs { .. } => event is LogDirectoryReady || event is LogDirectoryFailed,
        SpawnState::FindWrapper { .. } => event is WrapperFound || event is WrapperMissing,
        SpawnState::Launch { .. } => event is Launched || event is LaunchFailed,
        SpawnState::Finished => false,
        SpawnState::Failed { .. } => false,
    }
}

/// A launch moves on exactly when its question is answered, and notes a process exactly when one was
/// launched.
pub proof fn only_answers_count(
    manager: ManagerView,
    state: SpawnState,
    plan: SpawnPlan,
    event: SpawnEvent,
)
    requires
        manager.instances.len() <= usize::MAX,
        state.is_valid(manager.instances.len()),
    ensures
        state.next(plan, manager.instances.len(), event) != state <==> answers(state, event),
        !(state is Launch && event is Launched) ==> manager.after_spawn_event(state, event)
            == manager,
{
}

/// A process that was launched is noted with its group, and nothing else changes.
pub proof fn launch_is_noted(
    manager: ManagerView,
    group: usize,
    log_path: Option<String>,
    parent_pid: u32,
    pid: u32,
)
    requires
        group < manager.instances.len(),
    ensures
        ({
            let state = SpawnState::Launch { group, log_path, parent_pid };
            let after = manager.after_spawn_event(state, SpawnEvent::Launched { pid });
            let before = manager.instances[group as int];
            &&& after.shut_down == manager.shut_down
            &&& after.instances.len() == manager.instances.len()
            &&& after.instances[group as int].wrapper_pid == Some(pid)
            &&& after.instances[group as int].http_port == before.http_port
            &&& after.instances[group as int].http_token == before.http_token
            &&& after.instances[group as int].shut_down == before.shut_down
            &&& forall|i: int|
                0 <= i < manager.instances.len() && i != group ==> #[trigger] after.instances[i]
                    == manager.instances[i]
        }),
{
}

/// What each state of a launch asks for: the log directory `xmrig` and the file of the group, the
/// process with the command line of its group, the path of the binary at the end, and the text of the
/// error after a failure.
pub proof fn what_is_asked_for(
    manager: ManagerView,
    plan: SpawnPlan,
    state: SpawnState,
    action: SpawnAction,
)
    requires
        state.is_valid(manager.instances.len()),
        manager.spawn_asks_for(plan, state, action),
    ensures
        action is CheckBinary <==> state is CheckBinary,
        action is CreateLogDirectory <==> state is PrepareLogs,
        action is FindWrapper <==> state is FindWrapper,
        action is Launch <==> state is Launch,
        action is Return <==> state is Finished,
        action is Fail <==> state is Failed,
        action matches SpawnAction::CreateLogDirectory { directory, file } ==> {
            &&& directory@ == "xmrig"@
            &&& file@ == "xmrig_group"@ + text::decimal(state->PrepareLogs_group as nat) + ".log"@
        },
        action matches SpawnAction::Launch { group, arguments } ==> {
            &&& group == state->Launch_group
            &&& is_for(
                text::texts(arguments@),
                plan,
                group as nat,
                manager.instances[group as int],
            )
            &&& text::texts(arguments@)[2] == text::decimal(state->Launch_parent_pid as nat)
            &&& state->Launch_log_path matches Some(path) ==> text::texts(arguments@).contains(
                "--log-file="@ + path@,
            )
        },
        action matches SpawnAction::Return { binary } ==> binary == plan.binary,
        action matches SpawnAction::Fail { message } ==> message@ == state->error.text(),
{
    if let SpawnState::Launch { group, log_path, parent_pid } = state {
        let instance = manager.instances[group as int];
        let path = crate::launch::path_text(log_path);
        line_is_for_its_group(plan, group as nat, parent_pid, instance, path);
        let xmrig = crate::launch::xmrig_arguments(
            plan,
            instance.http_port,
            instance.http_token,
            path,
        );
        let line = crate::launch::wrapper_arguments(plan, group as nat, parent_pid, xmrig);
        crate::command_laws::command_line_of_xmrig(
            plan,
            instance.http_port,
            instance.http_token,
            path,
        );
        crate::command_laws::command_line_of_the_wrapper(plan, group as nat, parent_pid, xmrig);
        let log = plan.connection_type_args@.len() as int;
        assert(line.skip(4)[log] == line[log + 4]);
    }
}

} // verus!
