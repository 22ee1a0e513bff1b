# redleaf

Verified pieces of a research operating system written in Rust, whose
domains exchange data through owned references.

- `src/` is the library, verified with Verus:
  - `rref`, `rref_deque`: owned references and a bounded ring-buffer deque of
    them (first in, first out; a push on a full deque is refused).
  - `traits`: type identifiers computed with wrapping arithmetic.
  - `fs`: the on-disk layout of the xv6 file system and its one-time setup.
  - `sysbdev`: the block device behind the block system calls.
  - `net`, `virtionet`, `ixgbe`: network drivers' request handling.
  - `nvme`: the initialisation of an NVMe controller as a state machine.
  - `console_setup`: the first user process's console setup, as a state machine.
  - `unwind`: recording the continuation a call is unwound to.
  - `dom_b`: the domain-crossing benchmark's packets and its rounds, which
    swap the two queues after each call.
- `app/` holds what runs on the machine: the kernel entry, the unwinding
  jump, the shared global state, the loops that perform the actions the
  state machines decide, the ixgbe domain's entry, the uptime program and
  the benchmark's timing.
- `tests/` exercises the library on concrete values.
