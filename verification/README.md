# voice_agent

The decision logic of a real-time voice assistant, verified with Verus: what it hears goes to a
language model, and what the model answers is spoken.

- `src/` is the library. Every function in it is verified against its contract, but for the few
  trusted ones named at the end.
  - `llm/`: the conversation with the language model: history, requests, streamed answers, retries.
  - `voice_agent/`: the agent: when the user has finished, what an answer sounds like, what each
    event calls for.
  - `stt_handle`, `tts_handle`, `outbox`: the connections to speech recognition and synthesis.
  - `ws`, `twilio/`: conversations over WebSockets and telephone lines.
  - `pcm_capture`, `pcm_playback`, `downsampler`, `pcm`, `ulaw`, `encoding`, `framing`: audio.
  - `settings`: the configuration that the environment gives.
- `tests/` runs the library.
- `app/` is the program around it: devices, sockets and servers. Run it with `local`, `ws`,
  `twilio` or `console`. It needs the Gradium client library and an audio system.

Functions named `law_..` state what holds of the library as a whole: that nothing said is lost, that
an answer is spoken sentence by sentence whatever parts it comes in, that nothing is handed on after
a cancellation, that texts are sent in order, that audio survives its way as bytes and text.

What is trusted without proof stands behind small functions whose comments say what is claimed of
the code they call: base64, µ-law and JSON, and a few functions of the standard library.
