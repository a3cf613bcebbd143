# musq

The verified core of an asynchronous SQLite toolkit. `src/` holds the logic
with its contracts, proved by Verus; `app/` holds the code around it that
talks to SQLite's C API, to logging subscribers and to JSON.

Modules of `src/`:

- `scan`, `query`, `query_builder`, `insert_builder`: scanning SQL text for
  placeholders outside strings and comments, quoting identifiers, and
  composing queries from fragments with re-based named parameters.
- `arguments`, `value`, `codec`, `values`: bound arguments, owned SQLite
  values, encoding and decoding, and ordered column/value collections;
  `bytestr` stores the `bstr` crate's byte strings as BLOBs.
- `transaction`, `session`, `execute`, `pool`: savepoint SQL, the worker's
  transaction bookkeeping, stepping through compound statements, and the
  pool's connection counts, each as a state machine driven from outside.
- `connection`: what a connection keeps between commands (transaction
  depth, statement cache, logging settings) and the deserialize step.
- `statement_cache`, `logger`, `control`, `function`, `row`, `errcodes`,
  `error`, `type_info`, `text`: the statement cache, query logging decisions,
  status and configuration codes, function flags and arguments, result
  rows, error codes, and text helpers such as the order of strings.
