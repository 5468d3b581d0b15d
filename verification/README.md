# voice_mcp_host

Local dictation with a voice agent: press a hotkey, speak, and the transcript
is pasted where the cursor is; say the trigger word first and an agent answers,
with workspace notes and Todoist tasks as tools that ask before they act.

The decisions of the app live in `src/`, a library written in Verus whose
functions carry contracts that the verifier proves:

- `text`, `json`, `paths`: the string, JSON and path model the rest is stated in.
- `config`, `app_state`, `hotkeys`, `logging`: settings and their defaults, the
  overlay states, hotkey handling, log file names.
- `recorder`, `insertion`, `audio`: the dictation cycle as steps from state and
  outcome to the next action, pasting with clipboard restore, capture limits.
- `asr`, `model_store`: choosing and checking transcription backends, engines
  and models, download plans and checksums.
- `agent_*`, `workspace`, `todoist`, `browser`, `tool_error`: the agent's
  requests and replies, session memory, tool validation, and the confirmation
  gate in front of every action that changes something.
- `commands`: what the settings window and chat are shown.

Laws that span several functions are public proof functions named `law_*`.

`app/` is the program around the library: devices, subprocesses, files,
network calls and platform APIs. It hands plain values to the library and
carries out the actions the library decides on. `tests/` runs the library on
concrete inputs.
