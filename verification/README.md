# integritas-edge

A client for stamping and verifying SHA3-256 hashes through the hosted
Integritas v2 API (`stamp`, `verify`, `check`), written in Verus.

- `src/` is the verified library: hexadecimal encoding, text helpers
  (blank keys, trailing slashes, byte-bounded truncation), the client's
  configuration and request assembly, the decision taken on every HTTP
  reply, parsing of hashes given on the command line, and the decisions of
  a receipt sink. Calls into `hex`, `sha3`, `blake3` and `reqwest` stand
  behind small trusted wrappers. Their contracts state what the crates'
  sources show, or give the result a name where it depends on the input
  alone; building the `reqwest` client depends on the machine, and those
  wrappers state nothing.
- `app/` holds what is I/O: the async HTTP round trips, JSON (de)serialisation
  through serde copies of the library's types, the command-line program, and
  the `furcate-inference-core` receipt sink.
- `tests/` exercises the library with concrete values.
