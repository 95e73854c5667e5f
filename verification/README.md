# provider_quota

Quota state of providers, as a Verus library: the snapshot that the data layer
stores, the patch that a remote provider reports, the rules that a patch keeps,
and the statements and decisions by which a patch is written to Postgres.

- `src/types.rs`: snapshots, patches and outcomes; `validate`, `new` and
  `from_unapplied_row`.
- `src/usd.rs`: amounts in US dollars, as the bits of binary64 numbers, compared
  as the numbers that they stand for.
- `src/text.rs`: blank and trimmed texts.
- `src/sql.rs`: columns, queries, statements and their placeholders.
- `src/quota.rs`: the statements of the repository, and how rows become
  snapshots.
- `src/apply.rs`: the writing of a patch, step by step.
- `src/repository.rs`: the traits of a repository.
- `src/laws.rs`: what holds across the functions.
- `src/table.rs`: what follows for a table on which the statements run as their
  texts read.
- `app/`: the repository on `sqlx`. It runs the statements and hands the answers
  back.
