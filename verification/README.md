# smolvm

Rules of an OCI-native microVM manager, as a library verified with Verus: machine
names and records, configuration merging, restart policies, process identity and
shutdown, disk sizing, registry references, and the step-by-step flows of starting,
running, monitoring and packing machines.

- `src/` is the verified library. Every function states in its contract what it
  returns; public proof functions state what holds across functions.
- `app/` is the command-line program around it: arguments, files, SQLite, processes,
  the hypervisor's library and the HTTP server. It performs the actions that the
  library's flows ask for and reports back what happened.
- `tests/` runs the library on concrete values.

What the library asks of the outside is passed in as plain values: whether a process
lives, what a lookup answered, whether a file exists. The few calls that it makes
itself (`ipnet`, `humantime`, `libc`'s status macros and some of the standard library)
stand in small wrappers whose doc comments say what is claimed of them.
