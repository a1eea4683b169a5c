//! What every command line tells xmrig and the process wrapper, and what every error tells the user.

use crate::launch::{SpawnError, SpawnPlan};
use crate::text;
use vstd::prelude::*;

verus! {

/// The command line of xmrig, place by place: the arguments of the connection as they were given,
/// the log file if its path is known, the port and the token of the HTTP API, the donation level, the
/// number of threads if there is one, the wish for details, and the further options as they were
/// given. There is nothing else in it.
pub proof fn command_line_of_xmrig(
    plan: SpawnPlan,
    port: u16,
    token: Seq<char>,
    log_path: Option<Seq<char>>,
)
    ensures
        ({
            let line = crate::launch::xmrig_arguments(plan, port, token, log_path);
            let connection = plan.connection_type_args@;
            let options = plan.extra_options@;
            let http = if log_path is Some {
                connection.len() as int + 1
            } else {
                connection.len() as int
            };
            let verbose = if plan.cpu_threads_per_group != 0 {
                http + 4
            } else {
                http + 3
            };
            &&& line.len() == verbose + 1 + options.len()
            &&& forall|i: int|
                0 <= i < connection.len() ==> #[trigger] line[i] == connection[i]@
            &&& log_path matches Some(path) ==> line[connection.len() as int] == "--log-file="@
                + path
            &&& line[http] == "--http-port="@ + text::decimal(port as nat)
            &&& line[http + 1] == "--http-access-token="@ + token
            &&& line[http + 2] == "--donate-level=1"@
            &&& plan.cpu_threads_per_group != 0 ==> line[http + 3] == "--threads="@
                + text::decimal(plan.cpu_threads_per_group as nat)
            &&& line[verbose] == "--verbose"@
            &&& forall|i: int|
                verbose < i < line.len() ==> #[trigger] line[i] == options[i - verbose - 1]@
        }),
{
}

/// A number of threads is passed on as it is, however large.
pub proof fn threads_are_passed_on(
    plan: SpawnPlan,
    port: u16,
    token: Seq<char>,
    log_path: Option<Seq<char>>,
)
    requires
        plan.cpu_threads_per_group > 0,
    ensures
        crate::launch::xmrig_arguments(plan, port, token, log_path).contains(
            "--threads="@ + text::decimal(plan.cpu_threads_per_group as nat),
        ),
{
    command_line_of_xmrig(plan, port, token, log_path);
    let line = crate::launch::xmrig_arguments(plan, port, token, log_path);
    let http = plan.connection_type_args@.len() + if log_path is Some {
        1int
    } else {
        0
    };
    assert(line[http + 3] == "--threads="@ + text::decimal(plan.cpu_threads_per_group as nat));
}

/// Two plans that differ in the number of threads give different command lines.
pub proof fn threads_make_a_difference(
    a: SpawnPlan,
    b: SpawnPlan,
    port: u16,
    token: Seq<char>,
    log_path: Option<Seq<char>>,
)
    requires
        a.connection_type_args == b.connection_type_args,
        a.extra_options == b.extra_options,
        a.cpu_threads_per_group != b.cpu_threads_per_group,
    ensures
        crate::launch::xmrig_arguments(a, port, token, log_path)
            != crate::launch::xmrig_arguments(b, port, token, log_path),
{
    command_line_of_xmrig(a, port, token, log_path);
    command_line_of_xmrig(b, port, token, log_path);
    let line_a = crate::launch::xmrig_arguments(a, port, token, log_path);
    let line_b = crate::launch::xmrig_arguments(b, port, token, log_path);
    if a.cpu_threads_per_group > 0 && b.cpu_threads_per_group > 0 && line_a == line_b {
        let http = a.connection_type_args@.len() + if log_path is Some {
            1int
        } else {
            0
        };
        let from = "--threads="@.len() as int;
        assert(line_a[http + 3].skip(from) =~= text::decimal(a.cpu_threads_per_group as nat));
        assert(line_b[http + 3].skip(from) =~= text::decimal(b.cpu_threads_per_group as nat));
        text::decimal_is_injective(
            a.cpu_threads_per_group as nat,
            b.cpu_threads_per_group as nat,
        );
    }
}

/// Without a number of threads xmrig is told nothing of it, unless the caller does so.
pub proof fn no_threads_no_argument(
    plan: SpawnPlan,
    port: u16,
    token: Seq<char>,
    log_path: Option<Seq<char>>,
    i: int,
)
    requires
        plan.cpu_threads_per_group == 0,
        0 <= i < crate::launch::xmrig_arguments(plan, port, token, log_path).len(),
        "--threads="@.is_prefix_of(
            crate::launch::xmrig_arguments(plan, port, token, log_path)[i],
        ),
    ensures
        ({
            let line = crate::launch::xmrig_arguments(plan, port, token, log_path);
            i < plan.connection_type_args@.len() || i >= line.len() - plan.extra_options@.len()
        }),
{
    command_line_of_xmrig(plan, port, token, log_path);
    reveal_strlit("--threads=");
    reveal_strlit("--log-file=");
    reveal_strlit("--http-port=");
    reveal_strlit("--http-access-token=");
    reveal_strlit("--donate-level=1");
    reveal_strlit("--verbose");
    let argument = crate::launch::xmrig_arguments(plan, port, token, log_path)[i];
    assert("--threads="@[2] == 't');
    assert(argument[2] == "--threads="@[2]);
}

/// An instance is told its own port and its own token: instances that differ in one of them get
/// different command lines.
pub proof fn credentials_make_a_difference(
    plan: SpawnPlan,
    port_a: u16,
    token_a: Seq<char>,
    port_b: u16,
    token_b: Seq<char>,
    log_path: Option<Seq<char>>,
)
    requires
        port_a != port_b || token_a != token_b,
    ensures
        crate::launch::xmrig_arguments(plan, port_a, token_a, log_path)
            != crate::launch::xmrig_arguments(plan, port_b, token_b, log_path),
{
    command_line_of_xmrig(plan, port_a, token_a, log_path);
    command_line_of_xmrig(plan, port_b, token_b, log_path);
    let line_a = crate::launch::xmrig_arguments(plan, port_a, token_a, log_path);
    let line_b = crate::launch::xmrig_arguments(plan, port_b, token_b, log_path);
    if line_a == line_b {
        let http = plan.connection_type_args@.len() + if log_path is Some {
            1int
        } else {
            0
        };
        let port_from = "--http-port="@.len() as int;
        assert(line_a[http].skip(port_from) =~= text::decimal(port_a as nat));
        assert(line_b[http].skip(port_from) =~= text::decimal(port_b as nat));
        text::decimal_is_injective(port_a as nat, port_b as nat);
        let token_from = "--http-access-token="@.len() as int;
        assert(line_a[http + 1].skip(token_from) =~= token_a);
        assert(line_b[http + 1].skip(token_from) =~= token_b);
    }
}

/// The command line of the process wrapper names the group, the process to watch and the binary, and
/// goes on with the command line of xmrig, unchanged.
pub proof fn command_line_of_the_wrapper(
    plan: SpawnPlan,
    group: nat,
    parent_pid: u32,
    xmrig: Seq<Seq<char>>,
)
    ensures
        ({
            let line = crate::launch::wrapper_arguments(plan, group, parent_pid, xmrig);
            &&& line.len() == xmrig.len() + 4
            &&& line[0] == "--group"@
            &&& line[1] == text::decimal(group)
            &&& line[2] == text::decimal(parent_pid as nat)
            &&& plan.binary.argument matches Some(path) ==> line[3] == path@
            &&& plan.binary.argument is None ==> line[3].len() == 0
            &&& line.skip(4) == xmrig
        }),
{
    let line = crate::launch::wrapper_arguments(plan, group, parent_pid, xmrig);
    assert(line.skip(4) =~= xmrig);
}

/// The log file of a group is named after the group.
pub proof fn log_file_names_the_group(group: nat)
    ensures
        crate::launch::log_file(group) == "xmrig_group"@ + text::decimal(group) + ".log"@,
{
}

/// A path that is valid text is passed on as it is.
pub proof fn path_is_passed_on(path: String)
    ensures
        crate::launch::path_text(Some(path)) == Some(path@),
        crate::launch::path_text(None) is None,
{
}

/// Every error tells what went wrong, where, and for what cause.
pub proof fn errors_tell_their_cause(path: String, cause: String, group: usize)
    ensures
        (SpawnError::BinaryNotFound { path }).text() == "Xmrig binary not found at "@ + path@
            + ". \n\nThis usually means antivirus software has quarantined the file. \nTo fix:\n1. Open your antivirus or Windows Defender security center\n2. Check 'Quarantine' or 'Protection history'\n3. Restore 'xmrig.exe' and add both 'xmrig.exe' and its directory to your antivirus exclusions"@,
        (SpawnError::LogDirectory { cause }).text() == cause@,
        SpawnError::WrapperNotInitialized.text() == "Process wrapper not initialized"@,
        (SpawnError::LaunchFailed { group, cause }).text() == "Failed to spawn xmrig on group "@
            + text::decimal(group as nat) + ": "@ + cause@,
{
}

} // verus!
