# duckdb_reports

Three Sakila/Pagila analytics reports (top customers, films and actors) over
DuckDB's Parquet scanner, each result checked against five named contracts.

- `src/sql.rs`: the report queries as text, with the fixture directory spliced in.
- `src/paths.rs`: where the Pagila fixture directory is.
- `src/contracts.rs`: the five contracts and the check that finds the first one a result breaks.
- `src/rows.rs`: the report rows and the per-report checks.
- `app/`: the command-line program and the DuckDB calls (open, query, row reading).
