# workflow

A workflow engine. A workflow instance is a graph of nodes; a node calls an HTTP service or a
language model, fans out over children, starts another workflow, asks for an approval, decides on a
condition, rewrites the context, or pauses. Jobs are taken from queues, instances are locked while
they are worked on, and a sweeper sets going again what got stuck.

- `src/` is the library: the rules by which instances, nodes and tasks move, the plugins of the
  node kinds, the executors of tasks, accounts and permissions, variables and their encryption, and
  the plans of what is asked of and written to storage. It is verified with Verus, down to the
  calls of outside crates. Those stand behind small functions marked `external_body`, whose
  contracts are trusted and not proved: password hashing (`src/account.rs`), signed tokens
  (`src/auth.rs`), encryption and base64 (`src/cipher.rs`), JSON (`src/codec.rs`), fresh ids
  (`src/ids.rs`), scripts (`src/plugin/rhai_engine.rs`), lower case and white space
  (`src/text.rs`), the clock and dates (`src/time.rs`), and reading a floating-point number
  (`src/variable.rs`). The doc comment of each says what is claimed of the call.
- `tests/` runs the library on concrete values, with the outside crates linked.
- `app/` is the programs around it: the API server and the engine, with MongoDB, Redis and the
  network.

Every type has a mathematical value, named after it with `View`, and contracts speak of those.
Functions that need the clock or a fresh id come in pairs: one that is told the time or the id and
whose result is exact, and one that takes them from the machine. Work that alternates with storage
or the network is cut into steps: a step says what is to be looked up, sent or written, and the next
one takes the answer.
