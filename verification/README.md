# Shokodex

A terminal chat assistant for a local LM Studio. The assistant may propose
PowerShell commands; a command runs only after the user has approved it.

- `src/` is the library, written in Verus. It holds the decisions: what each key
  does to the line being edited and to the screen (`editor`, `terminal`), which
  command a reply holds and what its output looks like (`powershell`), how a
  conversation goes on (`chat`, `session`), how the wait for a reply starts and
  ends (`thinking`), which model is used and how the user is greeted
  (`startup`, `card`). `text` searches and splits text.
- `editor_laws` and `session_laws` state what holds across keys and events:
  for instance that a command runs only directly after the reply that holds it
  and a line that approves, that a failed request takes its message back, and
  that the prompt of a chat stands between the two rows of its border.
  `screen` is the model of a terminal that the editor's laws speak of.
- `outside` holds what is taken on trust of `std` and `crossterm`.
- `app/` is the program: terminal, HTTP, files and processes.

Environment: `LMSTUDIO_BASE_URL` (default `http://localhost:1234/v1`) and
`LMSTUDIO_MODEL` (default: the first model that the service lists). Arguments
make a single query; without them a chat starts.
