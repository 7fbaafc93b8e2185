# datalake_web_api

The verified core of a web API over a data lake. A parquet table of files is
queried with SQL; `/select` answers the selected rows, `/download` answers the
listed files packed into one archive.

- `src/` — the library, verified with Verus:
  - `data_store/aws.rs`: the table's rows, the SQL sent for a selection, how
    record batches become rows, the object store URL and table location.
  - `data_store/flow.rs`: the select and download requests as a state
    machine from stage and event to next stage and action, with its laws.
  - `data_store/error.rs`, `error.rs`: store failures and how the API answers
    them (status code and body).
  - `routes/`: the request and answer types and the route decisions.
  - `utils/`: deployment constants and secret checks, emptiness of a
    result, archive entry names, decimal rendering and substring search.
- `tests/` — tests of the library on concrete values.
- `app/` — the server: HTTP routes, the query engine, S3 access, archive
  writing, and the environment; it drives the library's state machine.
