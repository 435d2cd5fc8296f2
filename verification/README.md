# ntd_db

The database layer of the ntd backend: a SQLite schema kept up to date by
versioned migrations, and the queries for usage statistics, process
templates, process artifacts and project directories.

## Layout

- `src/` is the library, verified with Verus. It holds the decisions and
  the text the database work depends on:
  - `migrations.rs`: the statement-list registry and the plan of a start-up
    run (which migrations to apply, the version reached, what is skipped).
  - `migration/`: the versioned registry (each migration's version and
    name), the pending-migration selection with its laws, the SQL probes and
    builders the migrations share, and the data-dependent decisions of the
    individual migrations (rating copy, log move, foreign-key rebuild,
    manual-loop deletion, phase-execution fix, workspace rename, butler
    columns, the default review template, the step machine of the
    consolidated v41 and the plan of v42).
  - `project_directory.rs`: the get-or-create state machine and the name
    update rule.
  - `schedule.rs`: the next run of a cron schedule (the occurrence through
    `cron` and `chrono-tz`, its UTC text through `chrono`).
  - `execution_logs.rs`: the rows of a legacy log JSON array (through
    `serde_json`).
  - `usage.rs`: the JSON lists stored with a usage statistic (through
    `serde_json`).
  - `process_artifact.rs`: grouping of gates by step execution.
  - `connection.rs`: the connection URL and the WAL check.
  - `text.rs`: whitespace collapsing, joins, decimal rendering, search.
- `app/` is ordinary Rust around the library: the `Database` handle over
  SeaORM and sqlx, the entities, and every query and migration body, which
  perform the I/O and take their decisions and statements from `src/`.
- `tests/` exercises the library on concrete values.
