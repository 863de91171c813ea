# libra_config

The network section of a Libra node's configuration, verified with Verus.

- `src/` is the verified library: network addresses (`address`), x25519 keys
  and the random generator they come from (`crypto`), peer identifiers and
  their text form (`peer`), seed and network peers (`peers`), the node's
  identity (`identity`), the errors of loading (`error`), and the network
  configuration with its preparation, loading and saving rules (`config`).
- `app/` reads and writes the peer files, finds the local IP address, and
  holds the serialized forms of the library's types.
- `tests/` exercises the library on concrete values.
