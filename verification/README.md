# postmite

The IPC boundary and the store rules of Postmite, a local-first desktop API
client, written in Verus and proved against their contracts.

- `src/ids.rs`: the UUID identifiers of workspace entities and how they are read
  from and written to text (through the `uuid` crate).
- `src/dto.rs`, `src/domain.rs`: the values that cross the IPC boundary and the
  request and workspace model the services work on.
- `src/body_digest.rs`: the SHA-256 of a body file's contents, fed block by block
  through the `sha2` crate, written as lower-case hexadecimal.
- `src/conversions.rs`: every conversion between the two, with redaction of
  secrets (cookie values, secret-bearing resolved bodies).
- `src/errors.rs`: the mapping of every failure to a stable `IpcError` that
  carries no persistence cause and no secret.
- `src/handlers.rs`: the command handlers, which refuse unreadable identifiers
  before the services are called and map what the services answer.
- `src/interchange.rs`: the Postman import, export and reimport commands and
  the native backup commands: the requests they hand to their services and
  the IPC form of what comes back.
- `src/execution.rs`: events of running requests, the history observer, the
  buffer of early events, and cancellation.
- `src/store.rs`: the rules of the SQLite store that need no database:
  validation, column encodings, ordering of the collection tree, retention of
  execution history, migration preflight and snapshot rotation, cookie scoping,
  workspace deletion, tab reuse, the id remapping of a backup restore, the
  placement of a Postman import, reading row columns back and the redaction
  of secret cells in a recoverable export.
- `app/`: file-system work around the library (reading body files into the
  digest, describing them, pre-migration snapshots).
- `tests/`: tests on concrete values.
