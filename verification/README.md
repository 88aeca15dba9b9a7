# meetily_audio

The audio layer of a meeting recorder, with its decisions verified by Verus.

`src/` is the library. Every function states what it returns or changes, and Verus
checks the statement, except for what comes from outside and is believed:

- `char::is_whitespace`, specified in `text`;
- `text::to_lowercase`, around `str::to_lowercase`, whose result goes by the name
  `text::lowercase`;
- `clock::read_clock` and `clock::format_timestamp`, around chrono.

The modules:

- `device`, `lookup`, `discovery`, `linux`: audio devices, the names they are stored
  under, and how a name is turned back into a device.
- `pulse`, `pulse_laws`, `pulse_wait`, `pulse_capture`: what a PulseAudio/PipeWire
  server reports, the rows that a picker shows for it, bounded waits, and the loop
  that reads a record stream.
- `core_audio`: cutting the samples of a Core Audio tap into chunks.
- `creation`, `stream`: creating, starting and stopping capture streams.
- `session`, `start`, `stop`, `transcript`, `clock`: a recording from its start to its
  end.
- `text`: strings as sequences of characters.

Work that blocks, waits or talks to another program is described, not done, by the
library: a value such as `Startup` or `Shutdown` holds a stage that says what to do
next, and `step` takes in what came of it.

`app/` does that work, with the audio server, the audio host and the desktop shell.
`tests/` runs the library from outside.
