# mvx_observer

A MultiversX block observer: it lists the blocks of each configured shard
from the MultiversX API, reads their transactions from the gateway and
stores blocks, transactions and per-shard checkpoints in ClickHouse.

- `src/` is the library, verified with Verus: the API records and table rows
  (`models`), their normalisation and the transaction classification
  (`normalizer`), the request addresses and the reading of gateway answers
  (`api`), the schema and statements (`storage`), character-level text rules
  (`text`), and the per-shard synchronisation as a state machine (`sync`),
  with its laws proved as proof functions.
- `app/` is the program around it: settings file, HTTP and ClickHouse I/O,
  one task per shard driving the state machine, and the copies of the
  library types that carry the serde and ClickHouse derives. The EGLD amount
  as a float is computed there.
- `tests/` exercises the library on concrete values.
