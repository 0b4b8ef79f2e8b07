# Holler

Holler is push-to-talk dictation. Hold a key and speak; on release the words are
transcribed, copied to the clipboard, added to a local history and typed or pasted
at the cursor. It also reads text aloud.

The decisions of the application are a library of verified Rust: but for the calls
into other crates that are listed below, every function in
`src/` has a contract that Verus proves. What touches the outside world (the
microphone, the network, windows, files, the database) is a thin program around it
in `app/`.

## Layout

| Path | What it holds |
| --- | --- |
| `src/text.rs` | Trimming, words, splitting, numerals, order of strings |
| `src/config.rs` | The settings file: defaults, overlay of a partial file, paths |
| `src/ptt.rs` | Key combinations: parsing, normal form, labels |
| `src/secrets.rs` | API keys: the key file, the environment, which of them wins |
| `src/clock.rs` | Dates and ages of history entries |
| `src/store.rs`, `src/store/` | The statements that keep the history, what they mean, and usage statistics |
| `src/inject.rs` | Bringing text to the cursor and taking the selection |
| `src/audio.rs` | From captured samples to a clip; trimming silence |
| `src/stt.rs` | The WAV file, requests for transcripts and their replies |
| `src/tts.rs` | Voices: requests for audio, their replies, which voice is used |
| `src/speech.rs` | Cleaning and splitting text to be read; the reading worker |
| `src/status_popup.rs`, `src/overlay.rs`, `src/toast.rs`, `src/icons.rs` | What is drawn on screen |
| `src/permissions.rs`, `src/diagnostics.rs` | System permissions; the log |
| `src/ui.rs` | The settings window |
| `src/app.rs`, `src/app/` | The application: from an event to a new state and what to do |
| `tests/` | Tests of the library on concrete values |
| `app/` | The program: event loop, devices, network, files, windows |

The library never performs an action itself. It returns what is to be done (an
`Effect`, a `Statement`, a `SpeakStep`), the program does it and reports how that
went.

## What is proved

A function's `ensures` says what it returns and changes for every input. What holds
across functions is stated by public proof functions, among them:

- a transcript goes to the clipboard and the history before anything else is tried
  with it (`app::laws::transcripts_are_kept`);
- a key that is held asks for something once (`app::laws::held_key_asks_once`);
- no deadline is slept through, and with nothing pending the program sleeps
  (`app::laws::no_deadline_is_missed`, `app::laws::idle_means_asleep`);
- a stored API key is found again, and storing it changes no other
  (`secrets::stored_key_is_found`, `secrets::other_accounts_are_preserved`);
- a search of the history matches exactly the texts that contain the query
  (`store::search_finds_what_contains_the_query`);
- recording adds one row, deleting takes that row alone away, the recent rows are the
  start of all (`store::table::recording_adds_one_row`,
  `store::table::deleting_removes_one_row`, `store::table::recent_is_the_start_of_all`);
- one text is read aloud at a time (`speech::one_reading_at_a_time`);
- the spelling of a key combination does not matter (`ptt::spelling_is_immaterial`);
- cleaning and splitting text for reading loses nothing but white space
  (`speech::cleaning_keeps_the_ink`, `speech::batches_keep_the_ink`);
- trimming silence loses no speech (`audio::trimming_keeps_speech`);
- a WAV file determines its samples (`stt::wav_file_determines_samples`).

## What is trusted

A few functions of other crates are called from the library through declarations
whose contracts are believed: `toml` (the key file), `global-hotkey` (parsing a
combination), `hound` (WAV), `serde_json` (request bodies), `webrtc-vad` (speech or
silence), and `str::to_uppercase` and `String::push` of the standard library. Each
declaration says what is claimed.

Sample values, pixels and glyphs are floating point and stay in `app/`.
