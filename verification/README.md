# sdkwork-inventory

The inventory rules of the SDKWork commerce capability, verified with Verus.

- `src/` is the library: domain drafts and the reservation life cycle
  (`domain`), commands and queries (`commands`, `queries`, `repository`),
  text normalisation (`text`), bounded pagination (`paging`), the SQL
  statements of the SQLite and PostgreSQL stores (`statement`, `sqlite`,
  `postgres`), how rows become reply objects (`rows`), the adjustment
  payload (`json`), the route tables and reply codes of the HTTP surfaces
  (`http`) and the service declaration (`service`).
- `app/` is the server around it: the stores that run the statements with
  sqlx, the axum routers, and `main`.
- `tests/` exercises the library on concrete values.
