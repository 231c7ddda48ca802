# ronajo

The verified core of a desktop client that searches anime, keeps a personal
library, streams episodes and drives a media player on another machine over
SSH.

- `src/` is the library, proved with Verus: request addresses for the
  catalogue and metadata services (`requests`, `url_encoding`), decoding of
  obfuscated stream identifiers (`stream_id`) and the choice of stream sources
  (`stream_links`) and the step-by-step episode link lookup (`episode_lookup`), show records (`show_data`, `show_object`), the remote
  player's command protocol (`player_data`), the configuration layout
  (`config`) and the decisions of the dialogs and pages (`preferences`,
  `devices`, `pages`). Text helpers live in `text`.
- `app/` is a command-line front end that performs the I/O around the
  library: HTTP requests, JSON parsing, SSH sessions and the configuration
  files, plus the few floating-point computations.
- `tests/` exercises the library on concrete values.
