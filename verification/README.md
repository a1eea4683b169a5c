# multi_group_mining

Windows divides its processors into groups of at most 64. On a machine with more than one group, one
xmrig process has to run in each group. This crate holds the decisions behind that, verified with
Verus; `app/` performs the work that they ask for.

- `threads`: how many logical processors there are, over all groups.
- `groups`: processor groups on a system that has none.
- `instance`, `manager`: one xmrig process per group, its port, its token and its process id.
- `launch`, `launch_laws`: command lines, errors and the order of work when all groups are launched.
- `status`: asking each instance for its status, and taking the replies together.
- `termination`: ending the processes, by request first and by force where that does not help.
- `shutdown`: a switch made from the `tari_shutdown` crate.
- `text`: decimal numbers and lists of strings.

`launch` and `termination` are state machines: each tells the next piece of outside work, and is told
what came of it.
