# sinkercli

A terminal view for routing Linux audio on PipeWire or PulseAudio: loopbacks,
virtual sinks, virtual microphone inputs, moving application streams between sinks,
and named presets of a routing.

The routing logic is a library verified with Verus (`src/`):

- `app` — the view's state and every operation on it. Operations that need the audio
  server or the disk return a `Request`; the caller performs it and hands the `Reply`
  to `App::resume`, which continues the operation. Each operation's contract is a
  relation between the state before, the state after, and the request it makes.
- `keys` — what each key press does in each dialog.
- `config` — presets and how storing one replaces a preset of the same name.
- `audio` — sources, sinks, loopbacks, streams, and which audio server runs.
- `pulse` — the `pactl` command lines, how their output is read, and how the server's
  records become the lists that the view shows.
- `view` — the texts and highlights that the panels and popups show.
- `text` — trimming, splitting, searching, and decimal numbers over `char` sequences.

`app/` is the program around it: the terminal loop (crossterm, ratatui), the libpulse
queries and `pactl` runs, and reading and writing the presets file (serde, toml).
