# caudex

The verified core of Caudex, a desktop ebook library manager, written in Verus.

- `src/` is the library. Every executable function carries a `requires`/`ensures` contract
  that Verus proves: import decisions and de-duplication, metadata normalisation and
  listing queries, batch updates, tags and collections, metadata conflicts, the metadata
  enrichment run (ISBN detection, provider fall-back, retries and diagnostics), the
  metadata providers' request and answer rules, the search index work queue and health
  check, library creation, and the search benchmark's command line.
  The few calls into other crates (`sha2`, `serde_json`, `infer`) sit behind small trusted
  wrappers whose contracts are documented where they are declared.
- `tests/` exercises the library on concrete values.
- `app/` is the unverified back end around it: SQLite through `sqlx`, the file system,
  HTTP providers through `reqwest`, the Tantivy index, and timing.
