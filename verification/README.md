# postgraph-server

The server of postgraph, a Threads analytics platform: it syncs a user's
posts and their metrics from the Threads API, has an LLM classify them, and
serves charts, a subject graph and LLM-written reports to a web dashboard.

## Layout

- `src/` is the verified library (Verus). It holds the logic of the server:
  - `views`, `engagement`, `histogram`, `heatmap`: the analytics charts
    (daily reach, growth, range sums, engagement with capture-time
    attribution, histograms, calendar heatmaps);
  - `ranking`, `subject_graph`, `subjects`: the ordering of posts by views,
    the links of the subject graph, and the subject endpoints;
  - `threads`: URLs, statuses, paging and metric reading of the Threads API,
    the windows of the views history, and timestamps;
  - `llm`: the prompts and messages sent to the LLM and the cleaning of its
    replies; `reports`: the insights report and the emotion narrative;
  - `jobs`, `tasks`, `schedule`: the decisions of the background jobs (retry
    policies, rate-limited metric refresh, category colours), what the task
    endpoints answer, and when the nightly run happens;
  - `requests`, `health`, `errors`, `dates`, `text`: request validation, the
    health report, error texts, date windows, and text helpers.
- `tests/`: tests of the library.
- `app/`: the executable around the library: the axum router, the database
  queries (sqlx), the HTTP clients of Threads and of the LLM (reqwest), and the
  background loops.

Contracts speak of chrono's and serde_json's results through named
specification functions where the library calls those crates.
