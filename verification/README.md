# event_analytics

An event-analytics pipeline: an ingestion API that publishes click, view and
purchase events to a message broker, workers that batch them into an
analytics store, and an analytics API that reports on them.

- `src/` is the verified library (Verus): request validation, event routing,
  per-topic batching, the retry schedule, row construction, SQL text, and the
  assembly of the analytics reports, each with its contract, plus proof
  functions (`law_*`) for the properties that span calls.
- `app/` runs the three services (`ingestion`, `analytics`, `workers`) around
  the library: HTTP, the broker, the store, JSON, clocks and logging.
- `tests/` exercises the library on concrete values.
