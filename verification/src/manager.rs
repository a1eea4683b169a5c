//! Manager of one xmrig process per processor group.

use crate::instance::{new_token, XmrigInstance};
use crate::launch::{
    log_file_name, BinaryPath, SpawnAction, SpawnEvent, SpawnPlan, SpawnState, LOG_DIRECTORY,
};
use crate::shutdown::Switch;
use crate::status::{aggregate, CpuMinerStatus};
use crate::termination::{TerminationAction, TerminationEvent, TerminationState};
use crate::text;
use vstd::prelude::*;

verus! {

/// What a manager holds.
#[verifier::ext_equal]
pub struct ManagerView {
    /// The instances; the one at place `i` belongs to processor group `i`.
    pub instances: Seq<crate::instance::InstanceView>,
    /// Whether the flag that all instances share has been raised.
    pub shut_down: bool,
}

/// Manages one xmrig process per processor group.
pub struct MultiGroupXmrigManager {
    instances: Vec<XmrigInstance>,
    /// The flag that all instances share.
    shutdown_signal: Switch,
}

impl View for MultiGroupXmrigManager {
    type V = ManagerView;

    closed spec fn view(&self) -> ManagerView {
        ManagerView {
            instances: self.instances@.map_values(|instance: XmrigInstance| instance@),
            shut_down: crate::shutdown::is_on(self.shutdown_signal),
        }
    }
}

/// What is left to do when a manager has been stopped.
pub struct StopOrder {
    /// Ids of the process wrappers to be terminated.
    pub pids: Vec<u32>,
    /// The shared flag as it was raised. The manager has a new one.
    pub raised: Switch,
}

impl StopOrder {
    /// Whether the shared flag is raised.
    pub fn is_raised(&self) -> (raised: bool)
        ensures
            raised == crate::shutdown::is_on(self.raised),
    {
        self.raised.is_triggered()
    }
}

/// Ids of the process wrappers that have been started, in the order of the groups.
pub open spec fn pids_of(instances: Seq<crate::instance::InstanceView>) -> Seq<u32>
    decreases instances.len(),
{
    if instances.len() == 0 {
        seq![]
    } else {
        match instances.last().wrapper_pid {
            Some(pid) => pids_of(instances.drop_last()).push(pid),
            None => pids_of(instances.drop_last()),
        }
    }
}

impl ManagerView {
    /// The manager has instances, and has not been told to shut down.
    pub open spec fn is_running(self) -> bool {
        self.instances.len() > 0 && !self.shut_down
    }

    /// What becomes of the manager when `event` comes in `state` of a launch.
    pub open spec fn after_spawn_event(self, state: SpawnState, event: SpawnEvent) -> ManagerView {
        match state.started(event) {
            Some((group, pid)) => ManagerView {
                instances: self.instances.update(
                    group as int,
                    crate::instance::InstanceView {
                        wrapper_pid: Some(pid),
                        ..self.instances[group as int]
                    },
                ),
                shut_down: self.shut_down,
            },
            None => self,
        }
    }

    /// What becomes of the manager when it is stopped: every instance has been told to shut down,
    /// and the shared flag is a new one.
    pub open spec fn after_stop(self) -> ManagerView {
        ManagerView {
            instances: self.instances.map_values(
                |instance: crate::instance::InstanceView|
                    crate::instance::InstanceView { shut_down: true, ..instance },
            ),
            shut_down: false,
        }
    }

    /// `action` is the work that is due in `state` of a launch.
    pub open spec fn spawn_asks_for(
        self,
        plan: SpawnPlan,
        state: SpawnState,
        action: SpawnAction,
    ) -> bool {
        match state {
            SpawnState::CheckBinary => action is CheckBinary,
            SpawnState::PrepareLogs { group } => {
                &&& action matches SpawnAction::CreateLogDirectory { directory, file }
                &&& directory@ == "xmrig"@
                &&& file@ == crate::launch::log_file(group as nat)
            },
            SpawnState::FindWrapper { .. } => action is FindWrapper,
            SpawnState::Launch { group, log_path, parent_pid } => {
                let instance = self.instances[group as int];
                &&& action matches SpawnAction::Launch { group: launched, arguments }
                &&& launched == group
                &&& text::texts(arguments@) == crate::launch::wrapper_arguments(
                    plan,
                    group as nat,
                    parent_pid,
                    crate::launch::xmrig_arguments(
                        plan,
                        instance.http_port,
                        instance.http_token,
                        crate::launch::path_text(log_path),
                    ),
                )
            },
            SpawnState::Finished => action == (SpawnAction::Return { binary: plan.binary }),
            SpawnState::Failed { error } => {
                &&& action matches SpawnAction::Fail { message }
                &&& message@ == error.text()
            },
        }
    }
}

impl MultiGroupXmrigManager {
    /// The channel of the flag that all instances share.
    pub closed spec fn shared_channel(self) -> int {
        crate::shutdown::channel(self.shutdown_signal)
    }

    /// The channels of the instances' own switches, in the order of the groups.
    pub closed spec fn instance_channels(self) -> Seq<int> {
        self.instances@.map_values(|instance: XmrigInstance| instance.channel())
    }

    /// A manager with one instance per processor group. `ports` holds the port of the HTTP API of
    /// each, and every instance gets a random token.
    pub fn new(ports: Vec<u16>) -> (manager: MultiGroupXmrigManager)
        ensures
            manager@.instances.len() == ports@.len(),
            forall|i: int|
                #![trigger manager@.instances[i]]
                0 <= i < ports@.len() ==> {
                    &&& manager@.instances[i] == crate::instance::fresh_instance(
                        ports@[i],
                        manager@.instances[i].http_token,
                    )
                    &&& crate::instance::is_random_uuid(manager@.instances[i].http_token)
                },
            !manager@.shut_down,
    {
        let mut tokens: Vec<String> = Vec::new();
        let mut i: usize = 0;
        while i < ports.len()
            invariant
                i <= ports@.len(),
                tokens@.len() == i,
                forall|j: int|
                    0 <= j < i ==> crate::instance::is_random_uuid((#[trigger] tokens@[j])@),
            decreases ports@.len() - i,
        {
            tokens.push(new_token());
            i += 1;
        }
        let manager = MultiGroupXmrigManager::with_tokens(ports, tokens);
        proof {
            assert forall|j: int|
                #![trigger manager@.instances[j]]
                0 <= j < ports@.len() implies crate::instance::is_random_uuid(
                manager@.instances[j].http_token,
            ) by {
                assert(manager@.instances[j].http_token == tokens@[j]@);
            }
        }
        manager
    }

    /// A manager with one instance per processor group, with these ports and tokens.
    pub fn with_tokens(ports: Vec<u16>, tokens: Vec<String>) -> (manager: MultiGroupXmrigManager)
        requires
            ports@.len() == tokens@.len(),
        ensures
            manager@ == (ManagerView {
                instances: Seq::new(
                    ports@.len(),
                    |i: int| crate::instance::fresh_instance(ports@[i], tokens@[i]@),
                ),
                shut_down: false,
            }),
    {
        let mut instances: Vec<XmrigInstance> = Vec::new();
        let mut i: usize = 0;
        while i < ports.len()
            invariant
                i <= ports@.len(),
                ports@.len() == tokens@.len(),
                instances@.len() == i,
                forall|j: int|
                    0 <= j < i ==> (#[trigger] instances@[j])@ == crate::instance::fresh_instance(
                        ports@[j],
                        tokens@[j]@,
                    ),
            decreases ports@.len() - i,
        {
            instances.push(XmrigInstance::new(ports[i], tokens[i].clone()));
            i += 1;
        }
        let manager = MultiGroupXmrigManager { instances, shutdown_signal: Switch::new() };
        assert(manager@ =~= ManagerView {
            instances: Seq::new(
                ports@.len(),
                |i: int| crate::instance::fresh_instance(ports@[i], tokens@[i]@),
            ),
            shut_down: false,
        });
        manager
    }

    /// Takes a launch from `state` on, after `event` has answered the pending action, and tells the
    /// next action. A launch begins with [`SpawnState::start`], whose action is to check the binary.
    ///
    /// The process that `event` says was started is noted. When the last group has its process, the
    /// path of the binary is handed back.
    pub fn spawn(&mut self, plan: &SpawnPlan, state: SpawnState, event: SpawnEvent) -> (r: (
        SpawnState,
        SpawnAction,
    ))
        requires
            state.is_valid(old(self)@.instances.len()),
        ensures
            final(self)@ == old(self)@.after_spawn_event(state, event),
            final(self).shared_channel() == old(self).shared_channel(),
            final(self).instance_channels() == old(self).instance_channels(),
            r.0 == state.next(*plan, old(self)@.instances.len(), event),
            r.0.is_valid(final(self)@.instances.len()),
            final(self)@.spawn_asks_for(*plan, r.0, r.1),
    {
        let (next, started) = state.step(plan, self.instances.len(), event);
        if let Some((group, pid)) = started {
            self.instances[group].set_wrapper_pid(pid);
        }
        assert(self@ =~= old(self)@.after_spawn_event(state, event));
        assert(self.instance_channels() =~= old(self).instance_channels());
        let action = self.spawn_action(plan, &next);
        (next, action)
    }

    /// The work that is due in `state` of a launch.
    pub fn spawn_action(&self, plan: &SpawnPlan, state: &SpawnState) -> (action: SpawnAction)
        requires
            state.is_valid(self@.instances.len()),
        ensures
            self@.spawn_asks_for(*plan, *state, action),
    {
        match state {
            SpawnState::CheckBinary => SpawnAction::CheckBinary,
            SpawnState::PrepareLogs { group } => SpawnAction::CreateLogDirectory {
                directory: LOG_DIRECTORY.to_owned(),
                file: log_file_name(*group),
            },
            SpawnState::FindWrapper { .. } => SpawnAction::FindWrapper,
            SpawnState::Launch { group, log_path, parent_pid } => {
                let instance = &self.instances[*group];
                let xmrig = plan.xmrig_args(instance.http_port(), instance.http_token(), log_path);
                SpawnAction::Launch {
                    group: *group,
                    arguments: plan.wrapper_args(*group, *parent_pid, &xmrig),
                }
            },
            SpawnState::Finished => SpawnAction::Return {
                binary: BinaryPath {
                    shown: plan.binary.shown.clone(),
                    argument: plan.binary.argument.clone(),
                },
            },
            SpawnState::Failed { error } => SpawnAction::Fail { message: error.message() },
        }
    }

    /// The status of all instances taken together, from what each of them replied.
    pub fn aggregate_status<H: Copy, F: Fn(H, H) -> H>(
        &self,
        replies: &Vec<Option<CpuMinerStatus<H>>>,
        zero: H,
        plus: F,
    ) -> (status: CpuMinerStatus<H>)
        requires
            replies@.len() == self@.instances.len(),
            forall|a: H, b: H| call_requires(plus, (a, b)),
        ensures
            status.aggregates(replies@, zero, plus),
    {
        aggregate(replies, zero, plus)
    }

    /// The status of the instances behind a list of ports taken together, from what each of them
    /// replied. No manager is needed for it.
    pub fn aggregate_from_ports<H: Copy, F: Fn(H, H) -> H>(
        replies: &Vec<Option<CpuMinerStatus<H>>>,
        zero: H,
        plus: F,
    ) -> (status: CpuMinerStatus<H>)
        requires
            forall|a: H, b: H| call_requires(plus, (a, b)),
        ensures
            status.aggregates(replies@, zero, plus),
    {
        aggregate(replies, zero, plus)
    }

    /// Tells every instance to shut down, raises the shared flag and renews it, and hands out the
    /// ids of the process wrappers to be terminated together with the raised flag.
    pub fn stop(&mut self) -> (order: StopOrder)
        ensures
            final(self)@ == old(self)@.after_stop(),
            final(self).instance_channels() == old(self).instance_channels(),
            order.pids@ == pids_of(old(self)@.instances),
            crate::shutdown::is_on(order.raised),
            crate::shutdown::channel(order.raised) == old(self).shared_channel(),
    {
        let mut i: usize = 0;
        let ghost before = self@.instances;
        while i < self.instances.len()
            invariant
                i <= self.instances@.len(),
                self.instances@.len() == before.len(),
                self.shutdown_signal == old(self).shutdown_signal,
                self.instance_channels() == old(self).instance_channels(),
                forall|j: int|
                    0 <= j < i ==> (#[trigger] self.instances@[j])@
                        == (crate::instance::InstanceView { shut_down: true, ..before[j] }),
                forall|j: int|
                    i <= j < before.len() ==> (#[trigger] self.instances@[j])@ == before[j],
            decreases before.len() - i,
        {
            self.instances[i].shut_down();
            assert(self.instance_channels() =~= old(self).instance_channels());
            i += 1;
        }
        let raised = self.shutdown_signal.raise_and_renew();
        assert(self@ =~= old(self)@.after_stop());
        let pids = self.get_pids();
        proof {
            same_pids(self@.instances, before);
        }
        StopOrder { pids, raised }
    }

    /// Takes the termination of the processes `pids` from `state` on, after `event` has answered the
    /// pending action, and tells the next action. A termination begins with
    /// [`TerminationState::start`]. No manager is needed for it.
    pub fn terminate_all(pids: &Vec<u32>, state: TerminationState, event: TerminationEvent) -> (r: (
        TerminationState,
        TerminationAction,
    ))
        requires
            state.is_valid(pids@.len()),
        ensures
            r.0 == state.next(pids@.len(), event),
            r.0.is_valid(pids@.len()),
            r.0.asks_for(pids@, r.1),
    {
        let next = state.step(pids.len(), event);
        (next, next.action(pids))
    }

    /// Whether the manager has instances, and has not been told to shut down.
    pub fn is_running(&self) -> (running: bool)
        ensures
            running == self@.is_running(),
    {
        self.instances.len() > 0 && !self.shutdown_signal.is_triggered()
    }

    /// Ids of the process wrappers that have been started, in the order of the groups.
    pub fn get_pids(&self) -> (pids: Vec<u32>)
        ensures
            pids@ == pids_of(self@.instances),
    {
        let mut pids: Vec<u32> = Vec::new();
        let mut i: usize = 0;
        assert(self@.instances.take(0) =~= seq![]);
        while i < self.instances.len()
            invariant
                i <= self.instances@.len(),
                pids@ == pids_of(self@.instances.take(i as int)),
            decreases self.instances@.len() - i,
        {
            assert(self@.instances.take(i + 1).drop_last() =~= self@.instances.take(i as int));
            if let Some(pid) = self.instances[i].wrapper_pid() {
                pids.push(pid);
            }
            i += 1;
        }
        assert(self@.instances.take(i as int) =~= self@.instances);
        pids
    }

    /// Port and token of the HTTP API of every instance, in the order of the groups.
    pub fn get_ports(&self) -> (ports: Vec<(u16, String)>)
        ensures
            ports@.len() == self@.instances.len(),
            forall|i: int|
                0 <= i < ports@.len() ==> (#[trigger] ports@[i]).0 == self@.instances[i].http_port
                    && ports@[i].1@ == self@.instances[i].http_token,
    {
        let mut ports: Vec<(u16, String)> = Vec::new();
        let mut i: usize = 0;
        while i < self.instances.len()
            invariant
                i <= self.instances@.len(),
                ports@.len() == i,
                forall|j: int|
                    0 <= j < i ==> (#[trigger] ports@[j]).0 == self@.instances[j].http_port
                        && ports@[j].1@ == self@.instances[j].http_token,
            decreases self.instances@.len() - i,
        {
            let instance = &self.instances[i];
            ports.push((instance.http_port(), instance.http_token().clone()));
            i += 1;
        }
        ports
    }
}

/// Instances with the same process wrappers have the same list of ids.
proof fn same_pids(
    a: Seq<crate::instance::InstanceView>,
    b: Seq<crate::instance::InstanceView>,
)
    requires
        a.len() == b.len(),
        forall|i: int| 0 <= i < a.len() ==> (#[trigger] a[i]).wrapper_pid == b[i].wrapper_pid,
    ensures
        pids_of(a) == pids_of(b),
    decreases a.len(),
{
    if a.len() > 0 {
        same_pids(a.drop_last(), b.drop_last());
    }
}

/// A manager that is stopped has told every instance to shut down, hands out the same ids, ports and
/// tokens as before, and counts as running again exactly if it has instances.
pub proof fn stop_keeps_instances(manager: ManagerView)
    ensures
        ({
            let stopped = manager.after_stop();
            &&& stopped.instances.len() == manager.instances.len()
            &&& forall|i: int|
                0 <= i < manager.instances.len() ==> {
                    &&& (#[trigger] stopped.instances[i]).shut_down
                    &&& stopped.instances[i].http_port == manager.instances[i].http_port
                    &&& stopped.instances[i].http_token == manager.instances[i].http_token
                    &&& stopped.instances[i].wrapper_pid == manager.instances[i].wrapper_pid
                }
            &&& !stopped.shut_down
            &&& stopped.is_running() == (manager.instances.len() > 0)
            &&& stopped.after_stop() == stopped
        }),
{
    assert(manager.after_stop().after_stop() =~= manager.after_stop());
}

/// The shared flag is never left raised, neither by a launch nor by a stop; and where it is not
/// raised, a manager is running exactly if it has instances.
pub proof fn running_is_having_instances(
    manager: ManagerView,
    state: SpawnState,
    event: SpawnEvent,
)
    requires
        !manager.shut_down,
    ensures
        manager.is_running() == (manager.instances.len() > 0),
        !manager.after_spawn_event(state, event).shut_down,
        !manager.after_stop().shut_down,
{
}

/// A manager runs exactly if it has instances and the shared flag is not raised.
pub proof fn running_needs_instances_and_no_stop(manager: ManagerView)
    ensures
        manager.is_running() <==> manager.instances.len() != 0 && !manager.shut_down,
{
}

/// The ids that a manager hands out are those of all instances that have one, in the order of the
/// groups, whatever else is known of them.
pub proof fn every_process_has_its_id_handed_out(instances: Seq<crate::instance::InstanceView>)
    ensures
        pids_of(instances) == instances.filter_map(
            |instance: crate::instance::InstanceView| instance.wrapper_pid,
        ),
    decreases instances.len(),
{
    if instances.len() > 0 {
        every_process_has_its_id_handed_out(instances.drop_last());
        let earlier = pids_of(instances.drop_last());
        if let Some(pid) = instances.last().wrapper_pid {
            assert(earlier.push(pid) =~= earlier + seq![pid]);
        }
    }
}

/// Where every instance has a process, the ids are theirs, place by place.
pub proof fn ids_of_full_instances(instances: Seq<crate::instance::InstanceView>)
    requires
        forall|i: int| 0 <= i < instances.len() ==> (#[trigger] instances[i]).wrapper_pid is Some,
    ensures
        pids_of(instances).len() == instances.len(),
        forall|i: int|
            0 <= i < instances.len() ==> Some(#[trigger] pids_of(instances)[i])
                == instances[i].wrapper_pid,
    decreases instances.len(),
{
    if instances.len() > 0 {
        let rest = instances.drop_last();
        assert forall|i: int| 0 <= i < rest.len() implies (#[trigger] rest[i]).wrapper_pid
            is Some by {
            assert(rest[i] == instances[i]);
        }
        ids_of_full_instances(rest);
        assert(instances[instances.len() - 1].wrapper_pid is Some);
        assert forall|i: int| 0 <= i < instances.len() implies Some(
            #[trigger] pids_of(instances)[i],
        ) == instances[i].wrapper_pid by {
            if i < rest.len() {
                assert(Some(pids_of(rest)[i]) == rest[i].wrapper_pid);
            }
        }
    }
}

/// An instance begins with its port and its token, without a process, and not told to shut down.
pub proof fn instances_begin_fresh(port: u16, token: Seq<char>)
    ensures
        ({
            let fresh = crate::instance::fresh_instance(port, token);
            &&& fresh.http_port == port
            &&& fresh.http_token == token
            &&& fresh.wrapper_pid is None
            &&& !fresh.shut_down
        }),
{
}

} // verus!
