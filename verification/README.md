# ferrosonic

The core of a terminal client for Subsonic music servers, verified with Verus.

- `src/` is the verified library: the server's data model, LRC lyrics
  parsing and line synchronisation, the key and mouse handling of the
  queue, browse, radio and lyrics pages (each a step from page state and
  key to new state and a command for the caller to carry out), and what the
  now-playing panel and settings page show. Laws that span several calls
  (moving a song down and back up restores the queue, parsed lyrics come
  sorted and keep every line, the current lyric line never moves back as
  playback goes on, and others) are stated as public proof functions.
- `app/` is ordinary Rust around it: terminal key events, serde copies of
  the data model, desktop notifications and drawing with ratatui.
- `tests/` runs the library on concrete values.
