# archy

A lightweight async application framework: services, systems, resources and events, run through
one lifecycle from startup to shutdown.

- `src/` is the core, crate `archy_core`, verified with Verus. It holds what is registered, how
  settings resolve, the run of an application as a machine of actions and events, the supervision
  of tasks, the loops of workers and interval systems, event buses and service channels, and the
  plan of the code that the service macros generate.
- `app/` is the runtime around it: tokio tasks and timers perform the actions, and types stand for
  the numbers that the core knows them by.
- `tests/` runs the core on concrete values.

`RestartPolicy::Attempts { max, .. }` grants `max` restarts: a task that fails every time runs
`max + 1` times.

A run goes through these phases, in this order: event buses, service channels, `First` systems,
services and their startup hooks, service workers, `Startup` systems, `Run` systems, `Fixed`
systems, the wait for shutdown, `Shutdown` systems, shutdown hooks, closing of channels, abort of
background systems, draining of workers, the wait until everything has stopped, `Last` systems.
Workers that do not drain in time, and hooks that are late, are aborted before that wait.
