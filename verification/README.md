# speech-agent-core

A verified decision library for a Windows speech agent that transcribes
system output and the microphone live with Whisper, shows an insight pane fed
by the OpenAI Responses API, and offers a dictation mode that types refined
phrases into the focused window.

`src/` is the library, verified with Verus: transcript estimation and
merging, the per-source recognition state, the agent worker's decisions
(what to send, when to retry), request bodies and the reading of replies, the agent configuration and
result canonicalization, settings normalization and the settings screens,
key handling, the screen lines of every view, the startup decisions, and the
restart snapshot with its round trip.

`app/` is the program around it: argument reading, files, WASAPI capture,
Whisper, HTTP calls, Windows services and the crossterm terminal. It asks the
library for every decision and hands it plain values.

`tests/` runs the library on concrete inputs.
