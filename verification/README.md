# sqlite3_ext

Building blocks for SQLite extensions and for using SQLite from Rust, with their behaviour
stated as contracts and proved with Verus.

## Layout

- `src/` — the verified library.
  - `engine.rs`: the calls into SQLite that the library makes, through `rusqlite`, each
    behind a small trusted wrapper.
  - `connection.rs`, `query.rs`, `transaction.rs`: opening databases, prepared statements
    (a state machine from ready to active to finished, with the bound parameters tracked),
    transactions and savepoints.
  - `value.rs`, `value_list.rs`, `types.rs`, `text.rs`: SQL values, BLOBs, the values of
    IN constraints, errors and their messages.
  - `globals.rs`, `nocase.rs`: the SQLite version and SQLite's case-insensitive
    comparison, with its laws.
  - `function/`: options of application-defined functions, what a function's return value
    hands back to SQLite, and the state of an aggregate.
  - `vtab/`: query plans (`IndexInfo`), the traits a virtual table implements, changes
    (`ChangeInfo`), overloaded functions, and which entry points a module fills in.
  - `extension.rs`: the decisions around loading extensions.
- `app/` — the part that talks to SQLite through raw pointers: registering functions,
  collations and modules, loading extensions. It follows the library's decisions.
- `tests/` — tests of the library against a real in-memory SQLite database.
