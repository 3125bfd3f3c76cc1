# maf_core

The verified core of MAF, a toolkit for realtime multiplayer apps whose rooms run as WebAssembly
containers. The library in `src/` is checked by Verus; its contracts state what each function
returns or changes.

- `container`: a container's activity state (as a 64-bit word with its transitions), the
  additional room keys it may add, and the decisions on its memory and table growth.
- `server`: apps, bundles, the bookkeeping of live rooms (by identifier, key and app), the checks
  on connection and room-creation requests, room tokens, authentication data, connection decisions, and the WebSocket connection's decisions.
- `host`: the platform host's environment and shutdown decisions, request credentials, app and
  room queries, the app cache, the gateway, bundle uploads and archives, and sign-in decisions.
- `maf_schemas`, `schemas`: shared schemas (room keys, strategies, meta entries, project
  configuration, error responses, type descriptions).
- `demo`: the Lights Out demo store.
- `text`: string operations with specifications over characters.

`app/` holds the runtime around the library: an atomic activity word, reading reflected shapes,
`maf-project.toml` parsing, HTTP error responses, environment settings, the app directory and the
coordination of concurrent room creations. `tests/` exercise the
library on concrete values.
