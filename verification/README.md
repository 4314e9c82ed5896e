# fdpoll

A library for integrating file descriptors into programs that wait on channels, written in
Verus.

A poll set watches file descriptors on a worker thread and sends a message when some of them
become ready. `src/` holds every decision of a poll set, each with a contract that Verus proves,
and makes no system call: a method hands back the call to make as plain values, and another one
takes the reply. `app/` makes the calls and runs the thread.

* `src/monitor.rs`: the state that the user's side shares with the worker
* `src/epoll.rs`, `src/kqueue.rs`: the poll sets of the two kernel interfaces
* `src/laws.rs`: what holds of every run, among it that each accepted wait is answered once and
  that at most the given number of events is ever stored
* `src/wire.rs`: what holds of the values that cross the kernel boundary
* `src/kernel.rs`: what `add`, `modify` and `delete` do to the descriptors that the kernel watches
* `src/errno.rs`: the error numbers, taken from the `libc` crate
* `src/types.rs`: errors and watch types

```rust
let set = FDPoll::new(3).unwrap();
set.add(0, Type::Read).unwrap();
set.wait().unwrap();

loop {
    set.rcv.recv().unwrap().unwrap();
    for e in set.events().unwrap().slice() {
        println!("fd: {} read: {} write: {}", e.fd(), e.read(), e.write());
    }
    set.wait().unwrap();
}
```
