# rsvim_fs

The file-system layer of the `Rsvim.fs` scripting API, verified with Verus.

- `src/resource.rs` — the table of open file and directory-listing handles,
  with fresh increasing ids and the laws relating adding, looking up and
  removing.
- `src/fs/` — one module per operation: the option and metadata records,
  and the function that turns the outcome of each system call into the API's
  result or error; each module also decides how a finished task settles its
  promise (resolved or rejected), taking the task's decoded result.
- `src/codec.rs` — the postcard decoders for integers and strings, with the
  varint format they read stated as spec functions.
- `app/` — the system calls themselves (std and tokio), serializable copies
  of the directory-entry and metadata records, and their decoding.
