# aio_plugin_dictionary

Tenant-scoped dictionary management (dictionary types and their items) for
the AIO host, as a Verus-verified library with its I/O kept apart.

- `src/` — the verified library:
  - `model` — request, view and row types and their models;
  - `text` — white space, trimming, UTF-8 byte length, code characters;
  - `validation` — the rules a type and an item must meet;
  - `service` — what the service writes for each request and how it reads
    each statement's outcome; assembling a tenant's view;
  - `store` — a model of the two tables and the statements, with the laws
    they keep (one default per type, unique codes, cascade on delete,
    tenant isolation, whole item transactions committed or rolled back);
  - `http` — session checks, refusals and success statuses;
  - `client`, `page`, `dialogs`, `plugin` — request addresses, what the
    management page shows, editor drafts, and the page's place in the menu.
- `app/` — PostgreSQL (sqlx), axum routes, the reqwest client and the JSON
  wire types. It asks the library what to write and how to read each
  statement's outcome; when the library refuses an outcome inside a
  transaction, the app drops the transaction, which rolls it back (the
  `store` laws state what the tables are then). The page's rendering and its
  registration with the host shell are not part of this crate.
- `tests/` — tests of the library.
