# rust_nvme

The core of an NVMe block driver, written and proved in Verus. It does no I/O: each function takes
plain values and says what is to be done next.

- `src/prp.rs`: data pointers of a request, and the proof that the device finds every byte of one
  whose segments leave no gap and whose pages fit the two pointers and the list
- `src/mq.rs`: tag sets, and the steps of queueing and ending a request
- `src/queue.rs`, `src/irq.rs`: queue pairs, and what an interrupt takes from a completion queue,
  with the proof that each completion is handed over once, also while the device posts more
- `src/admin.rs`: starting the controller, and the commands for the admin queue
- `src/disk.rs`: the disk that a namespace becomes
- `src/module.rs`: loading the driver
- `src/probe.rs`: taking a device into use, stage by stage
- `src/defs.rs`, `src/wire.rs`: the structures of the device, and their bytes
- `app/`: runs the steps against a host; `app/linux.rs` is the host inside the Linux kernel

Laws that span several functions are the public proof functions named `law_*`.
