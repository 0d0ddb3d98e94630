# fmodsilo

A language server for FModSilo mods, speaking the Language Server Protocol over
standard input and output.

The library under `src/` holds the server's logic, verified with Verus:

- `listener`: splits the character stream into messages (`Content-Length` and
  `Content-Type` headers, an empty line, then the JSON content).
- `server`: decides what to do with each message read: which handler gets a
  request or notification, which requests are refused and with which error, and
  what is reported in `$/logTrace` notifications.
- `protocol`: the handlers of `initialize`, `initialized`, `shutdown`,
  `$/setTrace`, `workspace/didChangeWatchedFiles`,
  `workspace/didChangeWorkspaceFolders`, `workspace/willRenameFiles` and of the
  response to `client/registerCapability`.
- `workspace`, `fmod`: the mods opened by the client and the Lua files in them.
- `message_manager`: the requests awaiting a response and the trace level.
- `lsp_json`, `lsp_any`: the protocol's messages and structures, and JSON values.
- `paths`, `text`, `keyed`: file paths and URIs, character helpers, and lists
  of entries with distinct keys.

`app/` is the program around it: it reads standard input, turns JSON into the
protocol's types and back with serde, sends messages, reads directories, and
runs the handlers on a pool of threads.
