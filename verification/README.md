# async_fuse

The decisions of a FUSE session, verified with Verus: how a session comes up,
how the connection with the kernel is opened, which request is answered how, what
becomes of the request buffers, and when the serving ends.

- `src/` is the library. It does no I/O: it is handed what came of a read, a
  call or a reply, and says what to do next.
  - `target`: the kernel's operating system and the limits that follow from it
  - `protocol`, `params`: requests, and what the file system is handed for them
  - `errno`: error numbers, and the one that a failure is reported as
  - `aligned_bytes`, `pool`: request buffers, and the channel of the idle ones
  - `session`: the session, its start and its end
  - `init`: the handshake that opens the connection
  - `dispatch`: what to do about each request
  - `run`: the setup of the buffers and the serving of requests
- `tests/` runs the library on concrete values.
- `app/` is the session that reads, calls and replies.

Functions whose names begin with `law_` state what holds of the library as a
whole.
