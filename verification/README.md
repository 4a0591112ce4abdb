# pico

A small runtime for the RP2040 (two Cortex-M0+ cores), split in two.

- `src/` is the verified library. It holds every decision the runtime takes
  on the values it reads from the hardware, each with a contract:
  - `hal::resets`, `hal::sio`: register block addresses, GPIO pin masks, the
    FIFO status decisions of the inter-core mailbox, spinlock register
    addresses and claims;
  - `boot`: the handshake that starts core 1, with its laws (an echoing core 1
    completes it in six responses; completion means the last six responses
    were the sequence itself);
  - `process`: the exception frame that starts a process;
  - `startup`: the memory operations of the reset handler;
  - `spin_lock`: the mutex lock on a hardware spinlock;
  - `task`: the round-robin task queue of the executor;
  - `blink`: the LED toggling of the example programs.
- `app/` holds what touches the hardware: volatile register access, inline
  assembly, linker symbols, the vector tables, `lock_api`'s `RawMutex`, and
  the polling of futures.
- `tests/` runs the library on concrete values.
