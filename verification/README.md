# Nobble addon SDK

The SDK for writing a Nobble addon — a separate program the Nobble daemon
starts and talks to over line-delimited JSON — together with the two addons
that ship with it, media transport and volume.

## Layout

- `src/` is the library, verified with Verus.
  - `addon.rs`: what an addon declares and implements — actions, parameters,
    invocations, readings, errors, and how an application named by the user
    is matched against one named by the platform.
  - `params.rs`: the parameters a binding carries, kept in id order.
  - `protocol.rs`: the messages that cross the pipe, and protocol versions.
  - `run.rs`: how one request is answered from an addon's declaration.
  - `media.rs`, `volume.rs`: the two addons, their declarations, and every
    decision they make on what the operating system reports.
  - `text.rs`: the character-level operations the rest is built on.
- `tests/` exercises the library from outside.
- `app/` is the process: the stdin/stdout loop and its JSON encoding, the
  fader's floating-point taper, and the Windows calls (Core Audio, WinRT)
  the two addons make where those exist.

Run `app` with `volume` to serve the volume addon; anything else serves the
media addon.
