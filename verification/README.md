# gadaj

Offline push-to-talk dictation: hold a key, speak, release, and the transcript is
pasted where the cursor is.

- `src/` — the verified core, written in Verus: parsing the hotkey text (F1 to F24,
  aliases, case and whitespace laws) and tracking key events, voice-activity
  decisions and silence trimming, the down-mix to mono, how much of a block
  resampler's last block to keep, WAV decoding (the reading is `hound`'s; the
  contracts tie the format, samples and errors to what it reads from the bytes),
  settings defaults, history search queries, the model catalogue with download
  progress and the choice of model to load, the data-directory rule, the paste
  keystrokes, and the dictation pipeline (capture, down-mix, silence trimming,
  resampling, recognition, history, paste) as a state machine with its laws.
- `tests/` — tests of the library.
- `app/` — the desktop shell: Tauri commands, microphone capture (cpal), the global
  key listener (rdev), clipboard and keystrokes (arboard, enigo), the SQLite history,
  model downloads, the native recogniser, and the floating-point signal arithmetic
  (energy, linear and sinc resampling, level meter, recording durations).
