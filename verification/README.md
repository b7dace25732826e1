# hidpp

Configure Logitech HID++ 2.0 mice and keyboards, and run a daemon that
maps diverted buttons and gestures to keystrokes and commands.

The library (`src/`) holds everything that decides or computes, each
function with a contract proved by Verus:

- `report`, `types`, `error`, `feature_id`, `features/*` — the report
  codec and the encoders/decoders of the 15 supported features.
- `transport` — which HID interfaces carry HID++, how a raw read becomes a
  long report, and which pending request an incoming report answers.
- `device` — the feature table, the open sequence (ping, FeatureSet
  discovery, name reading) as response-driven steps, the request each
  device operation sends, configuration export/import and the profile
  database.
- `daemon` — gesture tracking, the button/gesture configuration, keystroke
  parsing, notification handling, the connection loop's decisions and the
  menu bar's state.
- `cli`, `web` — argument parsing of the command-line tool and the browser
  front end's own logic.
- `text` — small verified string helpers, and the few calls into std that
  the library trusts.

`app/` is the executable around it: HID I/O through hidapi, TOML/JSON
through serde, the command-line interface and the daemon loop.
