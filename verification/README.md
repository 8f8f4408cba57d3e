# Gemini Live API mock server

A WebSocket mock server for testing speech-to-speech bots without consuming API tokens. The
logic is a library verified with Verus; the server around it is ordinary Rust.

## Layout

- `src/`: the verified library
  - `session_model`, `session`, `session_laws`: one client session. A session is told what
    happened and answers with actions and with what it needs next: the energy of a frame of audio,
    the response delay to pass, resampled audio, or just to be called again. The model says what it does, `session` does
    it, and the laws say what follows over one input or many.
  - `server`: what to do about each event on a WebSocket connection, and the control that test
    code has over it
  - `vad`, `energy`: voice activity detection by energy
  - `mock_response`, `pcm`, `text`: the responses, and what they are made of
  - `audio`: which WAV files are written, and when
  - `config`, `protocol`: configuration and messages
  - `codec`, `cancel`: what is called of `base64`, `uuid`, the standard library and `tokio_util`,
    and what is trusted of it
- `app/`: sockets, files, JSON, timers and floating point: the server itself. `lib.rs` is what test
  code imports to run the server and control it, `main.rs` the command line program
- `tests/`: tests of the library

## Usage

| Option | Default | Description |
|--------|---------|-------------|
| `--listen` | `127.0.0.1:8080` | Address to listen on |
| `--response-delay` | `200` | Delay (ms) between end-of-speech and response |
| `--tool-call-interval` | `0` | Trigger tool call every N turns (0 = disabled) |
| `--vad-energy-threshold` | `0.01` | RMS energy threshold for speech detection |
| `--vad-silence-frames` | `30` | Frames of silence before end-of-turn |
| `--audio-output-dir` | `./audio_logs` | Directory for WAV audio logs |

Input audio is PCM 16-bit mono at 16kHz, output audio PCM 16-bit mono at 24kHz. The endpoints are
`/ws` and `/` for WebSocket connections, and `/health`.
