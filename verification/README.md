# azure_speech

The frames and the endpoint URL of the Azure speech-to-text WebSocket protocol, written in
Verus and proved against their specifications.

- `src/config.rs`: the session configuration (credentials, mode, languages, output format,
  profanity, phrases, custom models, audio source) and its setters.
- `src/json.rs`: a JSON value and its mathematical model.
- `src/payload.rs`: the bodies of the `speech.config` and `speech.context` frames.
- `src/wave.rs`: the RIFF/WAVE header that announces the audio.
- `src/message.rs`: text and binary frames.
- `src/clock.rs`: the current UTC time in RFC 3339 form, read through `std::time` and
  written by `chrono`, behind trusted wrappers.
- `src/utils.rs`: the endpoint host of each cloud, the endpoint URL with its query, and the
  four frames of a session; the calls into `url` and `uuid` stand behind trusted wrappers
  there.
- `src/text.rs`: substring and prefix tests on strings.
- `app/`: the wire side: sessions named by `uuid::Uuid`, JSON bodies as `serde_json::Value`.
