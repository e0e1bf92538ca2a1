# intersystems_ls

The verified core of a language server for InterSystems ObjectScript.

- `src/` is the library, checked by Verus:
  - `uri`: document identifiers, parsed with the `url` parser of `lsp-types`;
  - `text`: line splitting and other string helpers;
  - `protocol`: the messages as plain values;
  - `workspace`: open documents, immutable snapshots, lookup and replacement;
  - `feature`: feature requests and the providers that combine answers;
  - `connection`: connection settings and the database queries;
  - `compile`: what is compiled and how the outcome is reported;
  - `server`: what each client message does to the server state.
- `tests/` runs the library on concrete values.
- `app/` holds what cannot be verified: the JSON forms of the messages, the
  database calls (through the `irisnative` client) and the asynchronous
  message handlers.
