# smart_ledger

The bookkeeping rules of the SmartLedger Android app, verified with Verus.

- `src/` — the verified library: record kinds and their stored names, the preset
  accounts and categories, the sort order of new items, the checks that guard
  deletions, the balance effect of adding and deleting records, budget upserts, the
  SQL text of the listing queries, month keys and month bounds, and the decimal text
  these need. Proof functions state the laws that hold across these functions.
- `app/` — the rest of the library, unverified: the SQLite storage, the operations that
  read and write the database, the float amounts and totals, the local clock, the
  JSON-serialisable copies of the types, and the JNI entry point.
- `tests/` — tests of the verified library.
