//! Launching one xmrig process per processor group: command lines, errors, and the order of work.

use crate::text;
use vstd::prelude::*;

verus! {

/// Directory, below the log directory, that holds the log files of xmrig.
pub const LOG_DIRECTORY: &'static str = "xmrig";

/// Where the xmrig binary lies.
pub struct BinaryPath {
    /// The path as it is shown to the user.
    pub shown: String,
    /// The path as a command line argument, where it is valid text.
    pub argument: Option<String>,
}

/// What a launch of all groups is asked to do.
pub struct SpawnPlan {
    pub binary: BinaryPath,
    /// Threads per group; 0 leaves the choice to xmrig.
    pub cpu_threads_per_group: u32,
    pub connection_type_args: Vec<String>,
    pub extra_options: Vec<String>,
}

/// Why a launch failed.
pub enum SpawnError {
    /// There is no file at the path of the binary.
    BinaryNotFound { path: String },
    /// The directory of the log file could not be made.
    LogDirectory { cause: String },
    /// The path of the process wrapper is not known.
    WrapperNotInitialized,
    /// The process wrapper of a group could not be started.
    LaunchFailed { group: usize, cause: String },
}

/// Text of the error for a binary that is missing at `path`.
pub open spec fn binary_not_found_text(path: Seq<char>) -> Seq<char> {
    "Xmrig binary not found at "@ + path
        + ". \n\nThis usually means antivirus software has quarantined the file. \nTo fix:\n1. Open your antivirus or Windows Defender security center\n2. Check 'Quarantine' or 'Protection history'\n3. Restore 'xmrig.exe' and add both 'xmrig.exe' and its directory to your antivirus exclusions"@
}

/// Text of the error for a group whose process could not be started.
pub open spec fn launch_failed_text(group: nat, cause: Seq<char>) -> Seq<char> {
    "Failed to spawn xmrig on group "@ + text::decimal(group) + ": "@ + cause
}

impl SpawnError {
    /// The text of an error.
    pub open spec fn text(self) -> Seq<char> {
        match self {
            SpawnError::BinaryNotFound { path } => binary_not_found_text(path@),
            SpawnError::LogDirectory { cause } => cause@,
            SpawnError::WrapperNotInitialized => "Process wrapper not initialized"@,
            SpawnError::LaunchFailed { group, cause } => launch_failed_text(group as nat, cause@),
        }
    }

    /// The message shown to the user.
    pub fn message(&self) -> (message: String)
        ensures
            message@ == self.text(),
    {
        match self {
            SpawnError::BinaryNotFound { path } => {
                let mut message = text::joined("Xmrig binary not found at ", path.as_str());
                message.append(". \n\nThis usually means antivirus software has quarantined the file. \nTo fix:\n1. Open your antivirus or Windows Defender security center\n2. Check 'Quarantine' or 'Protection history'\n3. Restore 'xmrig.exe' and add both 'xmrig.exe' and its directory to your antivirus exclusions");
                message
            },
            SpawnError::LogDirectory { cause } => cause.clone(),
            SpawnError::WrapperNotInitialized => "Process wrapper not initialized".to_owned(),
            SpawnError::LaunchFailed { group, cause } => {
                let number: u64 = *group as u64;
                let mut message = text::with_decimal("Failed to spawn xmrig on group ", number);
                message.append(": ");
                message.append(cause.as_str());
                message
            },
        }
    }
}

/// Name of the log file of a group.
pub open spec fn log_file(group: nat) -> Seq<char> {
    "xmrig_group"@ + text::decimal(group) + ".log"@
}

/// Name of the log file of `group`, below [`LOG_DIRECTORY`].
pub fn log_file_name(group: usize) -> (name: String)
    ensures
        name@ == log_file(group as nat),
{
    let mut name = text::with_decimal("xmrig_group", group as u64);
    name.append(".log");
    name
}

/// Arguments of xmrig itself, for the instance that serves its HTTP API on `port` behind `token`.
pub open spec fn xmrig_arguments(
    plan: SpawnPlan,
    port: u16,
    token: Seq<char>,
    log_path: Option<Seq<char>>,
) -> Seq<Seq<char>> {
    let log = match log_path {
        Some(path) => seq!["--log-file="@ + path],
        None => seq![],
    };
    let threads = if plan.cpu_threads_per_group > 0 {
        seq!["--threads="@ + text::decimal(plan.cpu_threads_per_group as nat)]
    } else {
        seq![]
    };
    text::texts(plan.connection_type_args@) + log + seq![
        "--http-port="@ + text::decimal(port as nat),
        "--http-access-token="@ + token,
        "--donate-level=1"@,
    ] + threads + seq!["--verbose"@] + text::texts(plan.extra_options@)
}

/// Arguments of the process wrapper of `group`: the group, the process to watch, the binary to run
/// (empty where its path is not valid text), and the arguments of xmrig.
pub open spec fn wrapper_arguments(
    plan: SpawnPlan,
    group: nat,
    parent_pid: u32,
    xmrig: Seq<Seq<char>>,
) -> Seq<Seq<char>> {
    let binary = match plan.binary.argument {
        Some(path) => path@,
        None => seq![],
    };
    seq!["--group"@, text::decimal(group), text::decimal(parent_pid as nat), binary] + xmrig
}

/// The text of a path that may not be valid text.
pub open spec fn path_text(path: Option<String>) -> Option<Seq<char>> {
    match path {
        Some(p) => Some(p@),
        None => None,
    }
}

impl SpawnPlan {
    /// The arguments of xmrig for one group.
    pub fn xmrig_args(&self, port: u16, token: &String, log_path: &Option<String>) -> (args: Vec<
        String,
    >)
        ensures
            text::texts(args@) == xmrig_arguments(*self, port, token@, path_text(*log_path)),
    {
        let mut args: Vec<String> = Vec::new();
        text::extend_copied(&mut args, &self.connection_type_args);
        let ghost connection = text::texts(self.connection_type_args@);
        assert(text::texts(args@) =~= connection);
        if let Some(path) = log_path {
            args.push(text::joined("--log-file=", path.as_str()));
        }
        let ghost log = match path_text(*log_path) {
            Some(path) => seq!["--log-file="@ + path],
            None => seq![],
        };
        assert(text::texts(args@) =~= connection + log);
        args.push(text::with_decimal("--http-port=", port as u64));
        args.push(text::joined("--http-access-token=", token.as_str()));
        args.push("--donate-level=1".to_owned());
        let ghost http = seq![
            "--http-port="@ + text::decimal(port as nat),
            "--http-access-token="@ + token@,
            "--donate-level=1"@,
        ];
        assert(text::texts(args@) =~= connection + log + http);
        if self.cpu_threads_per_group > 0 {
            args.push(text::with_decimal("--threads=", self.cpu_threads_per_group as u64));
        }
        let ghost threads = if self.cpu_threads_per_group > 0 {
            seq!["--threads="@ + text::decimal(self.cpu_threads_per_group as nat)]
        } else {
            seq![]
        };
        assert(text::texts(args@) =~= connection + log + http + threads);
        args.push("--verbose".to_owned());
        assert(text::texts(args@) =~= connection + log + http + threads + seq!["--verbose"@]);
        text::extend_copied(&mut args, &self.extra_options);
        args
    }

    /// The arguments of the process wrapper for `group`, which runs xmrig with `xmrig_args`.
    pub fn wrapper_args(&self, group: usize, parent_pid: u32, xmrig_args: &Vec<String>) -> (args:
        Vec<String>)
        ensures
            text::texts(args@) == wrapper_arguments(
                *self,
                group as nat,
                parent_pid,
                text::texts(xmrig_args@),
            ),
    {
        let binary = match &self.binary.argument {
            Some(path) => path.clone(),
            None => String::new(),
        };
        let mut args: Vec<String> = Vec::new();
        args.push("--group".to_owned());
        args.push(text::to_decimal(group as u64));
        args.push(text::to_decimal(parent_pid as u64));
        args.push(binary);
        assert(text::texts(args@) =~= seq![
            "--group"@,
            text::decimal(group as nat),
            text::decimal(parent_pid as nat),
            binary@,
        ]);
        text::extend_copied(&mut args, xmrig_args);
        args
    }
}

/// Where a launch of all groups stands. The groups are served one after the other.
pub enum SpawnState {
    /// Nothing has been done.
    CheckBinary,
    /// The binary is there; `group` comes next.
    PrepareLogs { group: usize },
    /// The log directory of `group` is there.
    FindWrapper { group: usize, log_path: Option<String> },
    /// The process wrapper is known.
    Launch { group: usize, log_path: Option<String>, parent_pid: u32 },
    /// Every group has its process.
    Finished,
    /// The launch was given up. Processes that were started before go on running.
    Failed { error: SpawnError },
}

/// What came of the work that a [`SpawnAction`] asks for.
pub enum SpawnEvent {
    BinaryChecked { exists: bool },
    LogDirectoryReady { log_path: Option<String> },
    LogDirectoryFailed { cause: String },
    WrapperFound { parent_pid: u32 },
    WrapperMissing,
    Launched { pid: u32 },
    LaunchFailed { cause: String },
}

/// Work that a launch asks for next.
pub enum SpawnAction {
    /// See whether the binary exists.
    CheckBinary,
    /// Make the directory of the log file, and tell the path of that file.
    CreateLogDirectory { directory: String, file: String },
    /// Look up the process wrapper and the id of this process.
    FindWrapper,
    /// Start the process wrapper of a group.
    Launch { group: usize, arguments: Vec<String> },
    /// Hand the path of the binary to the caller.
    Return { binary: BinaryPath },
    /// Hand an error to the caller.
    Fail { message: String },
}

/// The state in which `group` comes next, of `groups` in all.
pub open spec fn before_group(group: nat, groups: nat) -> SpawnState {
    if group < groups {
        SpawnState::PrepareLogs { group: group as usize }
    } else {
        SpawnState::Finished
    }
}

impl SpawnState {
    /// The group that is being served, where there is one, is one of `groups`.
    pub open spec fn is_valid(self, groups: nat) -> bool {
        match self {
            SpawnState::PrepareLogs { group } => group < groups,
            SpawnState::FindWrapper { group, .. } => group < groups,
            SpawnState::Launch { group, .. } => group < groups,
            _ => true,
        }
    }

    /// The state after `event`. An event that answers another action than the pending one changes
    /// nothing.
    pub open spec fn next(self, plan: SpawnPlan, groups: nat, event: SpawnEvent) -> SpawnState {
        match self {
            SpawnState::CheckBinary => match event {
                SpawnEvent::BinaryChecked { exists: true } => before_group(0, groups),
                SpawnEvent::BinaryChecked { exists: false } => SpawnState::Failed {
                    error: SpawnError::BinaryNotFound { path: plan.binary.shown },
                },
                _ => self,
            },
            SpawnState::PrepareLogs { group } => match event {
                SpawnEvent::LogDirectoryReady { log_path } => SpawnState::FindWrapper {
                    group,
                    log_path,
                },
                SpawnEvent::LogDirectoryFailed { cause } => SpawnState::Failed {
                    error: SpawnError::LogDirectory { cause },
                },
                _ => self,
            },
            SpawnState::FindWrapper { group, log_path } => match event {
                SpawnEvent::WrapperFound { parent_pid } => SpawnState::Launch {
                    group,
                    log_path,
                    parent_pid,
                },
                SpawnEvent::WrapperMissing => SpawnState::Failed {
                    error: SpawnError::WrapperNotInitialized,
                },
                _ => self,
            },
            SpawnState::Launch { group, .. } => match event {
                SpawnEvent::Launched { .. } => before_group((group + 1) as nat, groups),
                SpawnEvent::LaunchFailed { cause } => SpawnState::Failed {
                    error: SpawnError::LaunchFailed { group, cause },
                },
                _ => self,
            },
            SpawnState::Finished => self,
            SpawnState::Failed { .. } => self,
        }
    }

    /// The group whose process `event` says was started, and the id of that process.
    pub open spec fn started(self, event: SpawnEvent) -> Option<(usize, u32)> {
        match (self, event) {
            (SpawnState::Launch { group, .. }, SpawnEvent::Launched { pid }) => Some((group, pid)),
            _ => None,
        }
    }

    /// The first state of every launch.
    pub fn start() -> (state: SpawnState)
        ensures
            state == SpawnState::CheckBinary,
    {
        SpawnState::CheckBinary
    }

    /// The state in which `group` comes next, of `groups` in all.
    fn at_group(group: usize, groups: usize) -> (state: SpawnState)
        ensures
            state == before_group(group as nat, groups as nat),
            state.is_valid(groups as nat),
    {
        if group < groups {
            SpawnState::PrepareLogs { group }
        } else {
            SpawnState::Finished
        }
    }

    /// Moves on after `event`. Also tells which process `event` started, if any.
    pub fn step(self, plan: &SpawnPlan, groups: usize, event: SpawnEvent) -> (r: (
        SpawnState,
        Option<(usize, u32)>,
    ))
        requires
            self.is_valid(groups as nat),
        ensures
            r.0 == self.next(*plan, groups as nat, event),
            r.0.is_valid(groups as nat),
            r.1 == self.started(event),
    {
        match self {
            SpawnState::CheckBinary => match event {
                SpawnEvent::BinaryChecked { exists } => if exists {
                    (SpawnState::at_group(0, groups), None)
                } else {
                    let error = SpawnError::BinaryNotFound { path: plan.binary.shown.clone() };
                    (SpawnState::Failed { error }, None)
                },
                _ => (self, None),
            },
            SpawnState::PrepareLogs { group } => match event {
                SpawnEvent::LogDirectoryReady { log_path } => (
                    SpawnState::FindWrapper { group, log_path },
                    None,
                ),
                SpawnEvent::LogDirectoryFailed { cause } => (
                    SpawnState::Failed { error: SpawnError::LogDirectory { cause } },
                    None,
                ),
                _ => (self, None),
            },
            SpawnState::FindWrapper { group, log_path } => match event {
                SpawnEvent::WrapperFound { parent_pid } => (
                    SpawnState::Launch { group, log_path, parent_pid },
                    None,
                ),
                SpawnEvent::WrapperMissing => (
                    SpawnState::Failed { error: SpawnError::WrapperNotInitialized },
                    None,
                ),
                _ => (SpawnState::FindWrapper { group, log_path }, None),
            },
            SpawnState::Launch { group, log_path, parent_pid } => match event {
                SpawnEvent::Launched { pid } => (
                    SpawnState::at_group(group + 1, groups),
                    Some((group, pid)),
                ),
                SpawnEvent::LaunchFailed { cause } => (
                    SpawnState::Failed { error: SpawnError::LaunchFailed { group, cause } },
                    None,
                ),
                _ => (SpawnState::Launch { group, log_path, parent_pid }, None),
            },
            SpawnState::Finished => (SpawnState::Finished, None),
            SpawnState::Failed { error } => (SpawnState::Failed { error }, None),
        }
    }
}

} // verus!
