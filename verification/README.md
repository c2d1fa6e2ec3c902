# tailclip

A shared clipboard for a tailnet. Copy on one machine. Paste on another.

The tailnet is the authentication: WireGuard already authenticates every device
and encrypts every packet, so tailclip has no account, no password and no session.

The logic is written in Verus and proved against its contracts. The program around
it is ordinary Rust.

| Where | What |
|---|---|
| `src/` | The library: the server, the client, the sync, the bind rules, the command line |
| `src/laws.rs` | What holds of the library as a whole |
| `src/outside.rs` | The calls into other crates. Their contracts are believed, not proved |
| `tests/` | The tests of the library |
| `app/` | The program: sockets, threads, files, the clock and the pasteboard |

## What is proved

- The version counts the changes of the clip, from 0. An identical clip of the same
  mime type changes nothing, and neither does one over the cap of 32 MB.
- A read gives back what a write wrote. A client that waits for the end of a version
  is answered when the clip changes. One that has another version is answered at once.
- What one client pushes is what another applies, text or image.
- A clip that was applied is not pushed back, be it text or any image. A start never
  overwrites the local clip.
- A clip that is seen in a pause is neither pushed nor applied, in the pause or after it.
  After a request that failed in a pause, the first answer is not applied either: it may
  carry a clip of the pause.
- The server passes every check of the selftest.
- Without `--allow-public-bind` the server listens on private addresses only, and never
  on every interface.

## What is not proved

The program in `app/` has to do what the library tells it: send the requests, wait as
long as it is told, and look at the pasteboard and at the pause file when it should.
A pasteboard has to give back the text or the pixels that were put on it.
A clip that is copied and replaced between two looks is not seen. One that is sent after
a resume, but before the server is reached again, cannot be told from a clip of the pause,
and is dropped with it.
