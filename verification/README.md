# mobius

The core of Mobius, a terminal AI agent backed by local LLM servers
(llama.cpp, Ollama, LM Studio), written in Verus and verified.

`src/` is the verified library:

- `cli`, `client_cli`, `arguments` — the two command lines and their rules,
  read through `pico_args`;
- `tools`, `web` — tool blocks in model replies and the reports the tools
  give back (files, shell, web search, web pages);
- `engine`, `stream`, `inferences` — thinking levels, the streamed reply
  (server-sent events, thinking blocks, usage figures), the engines and
  their request payloads;
- `session`, `agent` — the per-terminal conversation, the terminal history,
  and the turn loop with its tool budget;
- `daemon`, `client`, `queries`, `browser` — how the daemon answers each
  request, how the client shows events, the single-binary settings
  commands, and the session browser;
- `laws` — properties that hold across calls.

`app/` holds the program around it: the WebSocket daemon and client, the
Unix-socket single-binary variant (when installed as `mobius-local`),
the terminal UI, files, HTTP and process handling.
