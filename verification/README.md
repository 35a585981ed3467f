# borderless

LAN keyboard, mouse and clipboard sharing between a hub and its spokes.
The logic is a Verus library (`src/`): its functions are verified against
their contracts, except a few thin wrappers around outside crates
(BLAKE3, hex, Ed25519, the clock) whose contracts are trusted; the
properties the design relies on are stated as public proof functions
(`law_*`).

- `src/` — the verified library:
  - wire types and framing (`hid`, `input`, `node`, `snapshot`, `wire`);
  - the clipboard engine with Lamport versions and bounded history
    (`clipboard`) and the lazy payload store (`lazy`);
  - screen layout, modifier tracking and input routing (`layout`,
    `modifier`, `router`);
  - identity, short authentication strings, the trust-on-first-use peer
    store and the Hello check that binds identities to TLS sessions
    (`identity`, `sas`, `peer_store`, `handshake`);
  - per-frame decisions of the hub and spoke sessions and the reconnect
    schedule (`session`), configuration decisions (`config`) and the
    doctor report (`doctor`);
  - platform input: key tables (`keymap_*`), X11 and Windows event
    decoding and injection plans (`x11`, `win32`), shared backend pieces
    (`pal`).
- `tests/` — tests of the library, run against the real outside crates.
- `app/` — the `borderless` binary: command line, configuration and key
  files, the TCP+TLS transport, the hub and spoke event loops and the X11
  backend.

What this build leaves out:

- Multicast DNS discovery: the library reads and writes announcements
  (`discovery`), but no mDNS crate is part of this build, so nothing
  announces or browses.
- The QUIC endpoint with unreliable datagrams and new-peer events: the
  transport here is TCP+TLS only, with the same Hello check.
- The Windows and macOS desktop backends in `app/`: their decisions are in
  the library (`win32`, `pal`, `keymap_windows`, `keymap_macos`), but the
  system crates they need are not part of this build, so `app/` has the
  X11 backend only. Moving the cursor on macOS keeps a floating-point
  position and is not in the library.
