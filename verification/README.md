# efiutils

Helpers for a set of UEFI shell tools (`efivar`, `formbrowser`, `hiicfg`,
`hiidb`), written in Verus.

- `src/` is the verified library:
  - `error.rs` is the error type (a context message and its cause, a
    failed call's status code among them) and the `with_context` adapter;
  - `text.rs` decodes UCS-2 text into strings and formats bytes as
    hexadecimal;
  - `decimal.rs` reads unsigned decimal arguments;
  - `efivar.rs` holds the `efivar` tool's decisions: which command runs,
    how an edit request is read, and how a value is written into a
    variable's bytes;
  - `handles.rs` de-duplicates and orders HII handles, reads the form
    browser's arguments and decides which forms it opens.
- `app/` is the UEFI side: protocol tables, console output and the tools'
  entry points (one module per binary, `config_export` for the crate's own), which call the library for every decision.
- `tests/` runs the library on concrete inputs.
