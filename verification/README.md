# fuchsia_support

Verified pieces of a few Fuchsia support libraries.

- `src/signals.rs`: Zircon object signals as a bit mask, with the set
  operations the readiness logic uses.
- `src/rwhandle.rs`: a handle that is told when it becomes readable,
  writable or closed. The decisions (what a packet wakes, whether a poll is
  ready, what packet to ask for) are exact functions of the signal words;
  the laws (no lost wakeup, clearing, scheduling, repeated packets) are
  proof functions there, stated over those functions of the signal words.
  The shared word itself is an atomic whose value no contract can name, so
  no contract ties the laws to the word as it changes.
- `src/services.rs`: the `/svc/` path of a service, routing a service
  request to the last-added factory whose `service_name` is the requested
  name (that factory alone makes an instance, handed to the caller's
  launcher), the decision of what a request to a directory server gets,
  and the server loop's step; reading and writing the channels is the
  caller's.
- `src/at_commands.rs`, `src/sdk_args.rs`: error and command types.
- `app/`: conversions to and from kernel types, asking the kernel for
  packets, and the copies of the types that carry `argh`, `thiserror` and
  `failure` derives.

Not here, because they need Fuchsia crates that are not available
(fdio, fidl, fuchsia_async, mxruntime and the generated FIDL bindings):
connecting to a service and launching applications, starting the
directory server on the startup handle, the server's channel I/O, and the
io conformance tests, which drive an outside file server over FIDL. The
AT-command conversions to and from bytes need the command parser and the
generated command types, which are not part of these sources.
