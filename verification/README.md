# polyfuse

The session protocol of FUSE, written and proved in Verus.

- `wire`: integers as bytes, in either byte order.
- `kernel`: the constants and structures of the kernel interface.
- `bytes`: data that is sent as a list of chunks.
- `host`: what the protocol takes from the machine.
- `config`: the settings of a session.
- `handshake`: the INIT handshake.
- `connection`: what the handshake has agreed on.
- `session`, `request`, `reply`, `notify`: an open session and the frames that cross it.
- `filesystem`: what a filesystem learns about a request.
- `error`: what can go wrong.

`app/` connects the library to a real connection: it reads, writes and locks, and leaves every
decision to the library.
