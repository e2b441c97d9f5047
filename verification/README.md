# deezer_tui

A terminal Deezer client whose decisions are proved with Verus.

- `src/` is the verified library: the daemon's state machine (commands,
  answers of the web services, ticks, the queue and playback decisions,
  the retries of a track fetch, the snapshot it shows), the client's key
  handling (login screen, lists, filters, menus, overlays and pages), the
  parsers of the Deezer answers, stream decryption, the offline index,
  translations and themes.
  `src/laws.rs` states the properties that relate several operations.
- `app/` is the program around it: terminal input and drawing, the HTTP
  requests, files on disk and the browser login. It hands plain values to
  the library and performs the effects that the library returns.
- `tests/` runs the library on concrete values.

## What this build of the program leaves out

The library decides everything below; the program around it does not yet
perform it:

- Audio output. There is no audio engine (`rodio`) in this build: the
  answer that brings the decryption key reports that no audio output is
  available, and every decoded track ends as a playback failure, which the
  daemon handles as it would any other.
- A background player. The player runs inside the terminal process; `-q`
  finds no separate instance to stop, and quitting ends playback.
- The clipboard (`arboard`): copying a share link reports that the clipboard
  is unavailable.
- Cover images (`image`, `ratatui-image`): pages show text only.

The volume is kept in the configuration file and restored at start, though
without an engine it changes nothing audible.
