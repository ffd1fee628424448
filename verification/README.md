# agnt5-sdk-core

The core of a client library for language models, written in Verus.

`src/` decides; it does not act. It builds the payload of a request, reads a reply,
takes a stream apart, signs a call, counts retries, cuts documents, routes the replies
of tool servers. Verus proves the contract of every function there but the few that
call other crates.

- `lm` speaks to models: one module for each provider, and what they share (HTTP
  replies and retries, server-sent events, AWS event streams, prices, spans).
- `llm` finds models by the name of their provider, and answers questions from a
  vector database.
- `mcp` reaches the tools of MCP servers: framing, pending requests, connections.
- `memory` stores texts by scope and finds them by meaning.
- `logging` keeps the latest errors.
- `json`, `text`, `headers`, `duration`, `registry`, `slots`, `seqs`, `clock` and `ids`
  serve the others.

`app/` acts: it holds the HTTP clients, the streams, the processes, the databases and
the spans, hands plain values to `src/` and does what comes back. `tests/` runs the
library from outside.

A few functions of other crates (`serde_json`, `sha2`, `hmac`, `hex`, `crc32fast`,
`chrono`, `rand`, `uuid`, `reqwest`, `unicode-segmentation`) and of the standard library
are called from `src/`. What is believed of each stands in the contract above the call.

Costs are whole numbers of 10^-10 US dollars, delays are whole milliseconds, timeouts
are seconds and nanoseconds, and a number that is not whole is held by its decimal
notation.
