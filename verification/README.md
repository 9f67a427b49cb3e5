# core_affinity

Set CPU affinity for Rust threads on multiple platforms.

- `src/` is the verified library (Verus): the `CoreId` and `AffinityError`
  types (with the error's message),
  the conversions behind the `try_*` functions, and per platform
  (`src/platform/`) the computation from what the operating system reports to
  the list of core ids, and from a core id to what is asked of the operating
  system to pin a thread. The number of CPUs comes from `num_cpus`.
- `app/` is the platform glue: the system calls (`sched_getaffinity`,
  `thread_policy_set`, `pthread_getaffinity_np`, the Windows processor group
  calls), selected per target, and the public `get_core_ids`,
  `set_for_current`, `try_get_core_ids` and `try_set_for_current`, with an
  `AffinityError` that implements `std::error::Error`.
- `tests/` runs the library on concrete values.
