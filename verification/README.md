# mc-mcp

An MCP (Model Context Protocol) server for [metacontract](https://github.com/metacontract/mc)
projects: it runs Foundry (`forge test`, deploy and upgrade scripts, `forge init` from the
template, `cast index-erc7201`) and searches the documentation semantically.

The crate is written in Verus. Its library (`src/`) holds the logic, each function with a
contract that Verus proves:

- `markdown`, `chunking`, `text`: Markdown to plain text, paragraph chunks, and the string
  utilities they rest on (white space, trimming, decimal numbers, UTF-8 lengths).
- `config`: the configuration types, their defaults and their validation.
- `handler`: what each tool runs and answers; the setup tool is a state machine.
- `docker`: the state machine that makes sure a Qdrant container runs and answers.
- `file_system`: which files are Markdown, the map from paths to documents, and the
  prebuilt index read as a JSON object or split into JSON Lines records.
- `reference_service`: chunk records and the run over the configured sources.
- `initialization`: start-up settings, the artifacts to fetch, and the start-up state
  machine (its order, which failures end it, and when the service is published).
- `vector_db`, `domain`: collection settings and queries.
- `simple_server`: the tools of the simple stdio server.

Laws that span several calls are public proof functions named `law_*`.

`app/` is the program around the library: configuration loading, the MCP transport, the
commands, the HTTP requests, the embeddings and the Qdrant client.
