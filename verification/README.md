# openentry_ext

The extension side of the OpenEntry virtual machine's host interface.

- `src/` is the verified library: the values that the host and an extension
  exchange (shutdown types, executor and threading kinds, events and their
  payloads), the layout of the host's function table (`bindings`), the
  loading of that table (`init`, `id`), and the per-extension data entries.
- `app/` holds the host's objects as an extension sees them (runtime,
  virtual threads, strings, extensions, memory, stacks); each of their
  methods calls the host function that the library locates in the table.
- `tests/` runs the library on concrete values.
