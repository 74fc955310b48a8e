# proxid

An OpenAI-compatible audio proxy in front of OpenRouter: text-to-speech and
speech-to-text, with FFmpeg re-encoding the audio.

`src/` is the verified library (Verus). It holds the proxy's decisions:

- `domain` — audio formats (names, case-insensitive parsing, MIME types,
  which formats speech is produced in), errors and how they are answered,
  text helpers (decimal rendering, file extensions).
- `config` — the settings as plain values, and the order of the layers
  they are merged from.
- `features` — validation of speech requests, the steps of a speech answer
  (pass-through or re-encoding), the reading of the transcription form.
- `infrastructure` — framing of provider calls (URL, headers, bodies,
  Base64 audio), reading of provider answers and failures, FFmpeg encoder
  settings and command lines.

`app/` is the program around it: the axum server, the reqwest client, FFmpeg
processes and temporary files, figment configuration loading, logging.

`tests/` runs the library on concrete values.
