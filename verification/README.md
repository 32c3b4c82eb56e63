# audio_chat

The verified core of a voice-chat client that talks to a speech server over a
WebSocket: microphone audio is resampled, Opus-encoded and sent; the server's
audio is decoded, resampled and played; JSON control frames steer playback.

## Layout

- `src/` — the library, verified with Verus.
  - `audio/samples.rs` — splitting interleaved blocks into channels, cutting
    streams into frames, mono to stereo; with the laws that nothing is lost.
  - `audio/cache.rs` — the input and output buffers as a state machine: each
    call says which work is due (send, encode, resample, decode) and takes the
    results back. Laws on ordering, conservation and sessions.
  - `audio/controller.rs`, `audio/audio.rs`, `audio/mod.rs` — the switches of
    the control worker, the sound threads and the conversation.
  - `utils/frame` — control frames and how they are read from a message.
  - `utils/ws.rs` — the protocol state of the connection (hello, session id,
    sending, closing); `utils/outbox.rs` — the channel to the socket's writer
    task, with a record of what was handed to it and what it took.
  - `utils/config.rs`, `utils/device.rs` — settings and device configuration.
  - `utils/controller.rs` — a queue of control frames.
  - `window.rs` — what closing a window does.
- `app/` — the program around it: sound devices (cpal), the Opus codec,
  resampling (rubato, floating point), the socket and its tasks (tokio,
  tokio-tungstenite), the settings file (toml) and the log.
- `tests/` — tests of the library.
