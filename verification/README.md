# tori

A command line tool for Debian systems: it reads `tori.conf`, takes a
command from its arguments (`version`, `help`, `install`, `uninstall`,
`auto`, `manual`), detects the operating system and asks its package manager
(apt) for what the command needs, running privileged commands through a
configurable su command.

## Layout

- `src/` is the library, verified with Verus. Each module states its data as
  spec-level views and every public function carries a contract over them.
  - `text`: character-level string helpers (splitting, lines, trimming,
    joining, ordering) that the parsers are built on.
  - `conf`: the settings of `tori.conf` and how they become a configuration
    (su command, whether it wraps the command, merge strategy), given what
    the file system showed of the su command's program.
  - `run`: orders, tasks, command lines and transactions; escalating a
    command through the su command.
    - `run::teller`: the order that the program's arguments ask for.
    - `run::executor`: committing a transaction as a state machine (which
      command runs next, what a failure rolls back), and the rule that
      escalated commands are never read.
    - `run::expeditor`: which tasks are pending and what each one takes.
  - `os`, `os::pkg`, `os::debian`: operating systems, packages, apt's
    transactions and the parsing of `dpkg-query` output and apt's extended
    states.
  - `state`: detecting the operating system from `/etc/os-release` or
    `uname`, and the state of a run.
  - `lite`: a smaller command line program (`version`, `help`, `os`,
    `user`, `echo`, `pkg`; it runs when the executable is named `tori-lite`),
    its configuration and its orders.
- `app/` is the program around the library: it reads files and the
  environment, spawns processes, prints, and drives the library's state
  machines. Verus does not see it.
- `tests/` runs the library on concrete values, including the laws that
  `src/` proves.
