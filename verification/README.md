# sandbox_ipc

Primitives for communication between processes, designed with privilege separation in mind: channels of messages
that carry files and other resources of the operating system, shared memory, and queues and mutexes that live in
shared memory.

The library under `src/` holds the decisions, and every one of them is verified with Verus. It does not call the
operating system. An operation that needs it to is either handed the calls as closures, or is a value that says which
call is due and moves on with the reply. `app/` makes the calls on Unix.

| module | what it decides |
| --- | --- |
| `shm`, `shm::queue`, `shm::attempt` | shared memory objects and mappings, and a bounded queue in shared memory |
| `shm::protocol` | what the queue keeps under every interleaving of its producers and consumers |
| `sync`, `sync::thin_lock` | a mutex in shared memory, and the lock of a counter and a semaphore that it can be made of |
| `ser`, `channel`, `resource_channel` | messages over packets, and the channels that are set up with them |
| `delivery` | what arrives at the other end of a channel, over sockets that hand on what is given to them |
| `context` | what serialization turns to when it meets a resource |
| `io` | sources of data that can be sent to another process |
| `unix`, `windows`, `mach` | what these operating systems do differently |
| `identity`, `layout`, `bytes`, `step`, `error` | names, sizes, copying, replies and failures |

What is taken on trust is said in the doc comments of the functions that call `uuid`, `rand`, `libc`, `byteorder` and
`widestring`.
