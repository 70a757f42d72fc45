# iml

Verified pieces of the IML (Integrated Manager for Lustre) manager, agent, services
and GUI, written in Verus.

- `src/` is the library, verified by Verus:
  - `virtual_device`: which device–host records a host's report of its devices adds,
    updates or removes for the virtual devices of other hosts.
  - `db`, `wire`, `components`, `time`, `warp_drive`: the records and messages
    exchanged between the services, with their views.
  - `ntp`, `ntp_service`: reading the time services' outputs on the agent, and the
    out-of-sync alert decisions of the ntp service.
  - `env`: the manager's settings, looked up in a snapshot of the environment.
  - `cli`: the errors of the command line and the choice of hosts to detect
    filesystems on.
  - `filesystem_page`, `inode_table`, `name_order`: what the GUI's filesystem page and
    inode table compute: statistics, targets by kind in the natural order of their
    names, query URLs.
  - `agent_error`, `text`: error messages and text helpers.
- `tests/` runs the library on concrete values.
- `app/` is the unverified side: reading the process environment and socket addresses,
  running the time services' commands, reading the ntp configuration, and the JSON
  forms of the time state.
