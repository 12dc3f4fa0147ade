# just-talk

A voice input method: press a hotkey, speak, and the transcribed (and
optionally AI-polished) text is typed into the focused application or put on
the clipboard.

## Layout

- `src/` — the library, written in Verus and verified: the configuration and
  its defaults, the event loop's state machine (each event in, the next state
  and the effects to perform out), hotkey parsing and detection (event-driven
  and polled, single press or double tap), the output routing decision, the
  requests and reply parsing for the transcription and refinement services
  (with a small JSON model), the retry schedule, and the bookkeeping of the
  recording buffer, the overlay and the tray icon. Laws about these stand as
  proof functions next to the code they speak of.
- `tests/` — tests of the library on concrete values.
- `app/` — the program around the library: command line, logging, the
  microphone, resampling, HTTP, the clipboard and keystroke injection, the
  overlay window and tray icon, and the loop that performs the effects the
  library decides on.
