# remtene_application

The application layer of a system-wide dictation tool, written and proved in Verus:
how a dictation session starts, records, recognises, processes and delivers its text,
and how the settings around it are changed.

A workflow is a step machine. It holds plain values, says what is to be done next (a
command or a request), and takes the answer. The machine's contract gives the next
state, the effects and the next command for every state and every answer it waits for.

## Layout

- `src/` is the verified library.
  - `domain`, `ports`, `redaction`, `text` and `trace` hold the data: sessions and their
    phases, settings, requests, secrets, and the texts that are recorded about them.
  - `session_coordinator`, `lifecycle`, `asr_route`, `text_route` and `llm_contract` hold
    the rules that the workflows share.
  - `orchestrator` holds the workflows of a session: start, preparation, finish,
    delivery, cancellation, retry of a cleanup, the recording limit, and the exit of the
    application. The modules that end in `_laws` state what holds across them.
  - `configuration`, `settings_write`, `settings_change`, `llm_configuration` and the
    `*_controller` modules hold the workflows that read and change settings, keys,
    engines and the history.
- `tests/` runs the machines against simulated surroundings.
- `app/` is ordinary Rust around the library: the port traits, the asynchronous drivers
  that perform commands and requests, and error types with their messages.

## What is trusted

- `SecretValue` keeps its text in `zeroize::Zeroizing`.
- `render_object` writes a JSON object with `serde_json`.
- `char::is_whitespace` decides what a blank text is.
