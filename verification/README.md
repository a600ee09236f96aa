# leadintel

A lead enrichment pipeline: leads are scored with a doubt score and run,
one stage per pass, through a cost-tiered sequence of enrichment stages
(shallow, waterfall, agent) until the doubt drops below 0.2 or the budget
allows no further stage.

- `src/` is the verified library (Verus): doubt scoring, signals, the budget
  guard, stage selection and the end-of-pass decision, the three enrichment
  stages as step functions (the caller performs the storage, lookups and
  waits they ask for), the job queue's retry rules, CSV parsing (through the
  csv crate) and row handling, and the
  records with their constructors. Fractions of one (doubt, confidence,
  score, thresholds) are whole hundredths.
- `app/` is the command-line program around it: SQLite storage (rusqlite),
  the Redis job queue and its retry scheduler, pipeline.yaml parsing, reading the CSV file and the tokio
  runtime.
- `tests/` exercises the library.
