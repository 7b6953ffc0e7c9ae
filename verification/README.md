# tog

`tog` gives command-line access to agentic services:

```console
tog "Explain ownership in Rust"
tog :turn --conversation conversation_<id> --verbosity medium "And borrowing?"
```

Each turn appends the user's prompt to a durable, append-only conversation
log, sends the whole conversation to the OpenAI Responses API, appends the
model's events to the log, and prints the model events that the chosen
verbosity shows.

## Layout

- `src/` is the library, verified with Verus. It holds the conversation
  model and its validation, identifiers, the event-log rules (file names,
  replay order, next positions), the OpenAI driver's decisions (semantic
  input, HTTP error classification, server-sent event framing, payload
  decoding and response aggregation), the command-line decisions, and the
  turn as a state machine. Calls into `uuid`, `serde_json`, `reqwest` and
  `time` stand behind small trusted wrappers whose contracts are stated
  beside them.
- `app/` is the program around it: argument parsing, the environment, the
  files on disk, the HTTP client, and the JSON form of stored events.
- `tests/` exercises the library.
