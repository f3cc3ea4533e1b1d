# verba

The decision logic of Verba, a tray-based desktop translator that sends
text to an OpenAI-compatible `/v1/chat/completions` API, written in Verus
and verified.

## Layout

- `src/` — the verified library:
  - `app_runtime`: the daemon's state machine (window visibility, the
    translation in flight, shutdown) and the steps of a translation request,
    down to the failure notification;
  - `config`: the configuration schema, its defaults and its validation
    (provider URL normalization, preset checks);
  - `llm`: provider errors and their messages, the system prompt, the
    request that is sent and how an answer is read;
  - `gui`, `tray`: the choices behind the window, the dialogs, the preset
    editor and the tray menu;
  - `ipc`, `cli`, `secrets`, `notify`: D-Bus names and the retry steps of
    a command, exit codes, the secret's attributes and decoding, the
    arguments of `notify-send`;
  - `text`, `urls`: character-level helpers, and the calls into the `url`
    crate with the contracts the library relies on.
- `tests/` — tests of the library from outside.
- `app/` — the program around it: command line, configuration file, D-Bus
  service and client, Secret Service, HTTP, GTK window and tray icon.
