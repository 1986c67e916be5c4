# rust_clean_architecture_v1

A small HTTP service that adds staff items to a PostgreSQL store.

- `src/` is the verified library: the item models and their stored form
  (`models`, `entities`), the error answers, the clock (`time_helper`, which
  reads chrono), the steps of adding a staff as a state machine
  (`usecases::staff`), the id the store gives an inserted row
  (`repositories`), and the status of traced spans (`tracer`).
- `app/` is the program around it: the axum routes, the sqlx repository that
  runs the use case's requests against the database, the serde copies of the
  models, settings and OpenTelemetry set-up.
- `tests/` runs the library on concrete values.
