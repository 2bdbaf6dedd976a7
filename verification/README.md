# Now Playing

A music "now playing" widget for streams: it reads what Apple Music,
Cider or Spotify is playing, serves a widget page and its live data over
HTTP, and keeps an OBS browser source pointed at the widget.

- `src/` is the verified core (Verus): the track state and how each
  player's reports update it, the text handling it rests on (splitting,
  decimal numbers, pattern replacement), the settings and their defaults,
  the widget page, the web server's port range and address, and the
  request flows of the OBS integration.
- `app/` is the program around it: the player connections, the web server,
  the OBS WebSocket client, the settings file, and `main`.
- `tests/` exercises the library.
