# harbormaster

The decision core of a local agent manager, written in Verus and proved
against its contracts.

- `src/` is the verified library. Every decision the manager takes between
  reading and writing the system is a function here with a `requires` /
  `ensures` contract:
  - `recovery/`: the metadata spool (source provenance and eligible
    events, names, budgets, replay selection, cleanup plans and their
    application, log rotation, the directory inventory and status);
  - `storage/`: revisions, sequences and receipts of accepted facts, write
    validation, delivery and review transitions, maintenance counts, the
    database header and schema layouts, owned files, the catalog of
    projects, presets and tasks, runs and control records;
  - `runtime/`: subprocess argv and environment, unit properties, tmux and
    `/proc` text, ownership checks, compositor windows, launch handoff;
  - `text.rs`, `decimal.rs`, `pathwalk.rs`, `page.rs`: the text, number,
    path and paging rules the rest relies on.
- `app/` holds the input and output around part of the library: it
  reads `/proc`, runs subprocesses, opens the recovery directory and
  SQLite, and converts records to and from JSON. It does not cover every
  operation; the storage transactions, for one, are not written there.
- `tests/` exercises the library on concrete values.

These calls are trusted rather than proved: `String::push` behind
`text::push_char`, and `serde_json::from_slice` followed by
`Value::pointer` and one reader (`is_some`, `as_str`, `as_i64`) behind
`recovery::provenance::{present_at, text_at, int_at}`, whose results are
named `json_present_at`, `json_text_at` and `json_int_at`. Which pointers
are read, all of them inside a source record's `metadata` member, is
verified code (`read_source`).
