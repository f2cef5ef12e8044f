# mnml-aws-codebuild

A terminal viewer for AWS CodeBuild runs and CloudWatch logs. What it decides is a library in
Verus; reading files, running the `aws` command line tool, opening the browser and painting the
terminal is a small program around it.

- `src/config.rs`: the configuration, its defaults, its rules, its place and its template.
- `src/app.rs`: the tabs with what they have loaded, the selection, the status text; refreshing,
  and taking in what background work reports.
- `src/log_tail.rs`, `src/codebuild.rs`, `src/channel.rs`: a followed log, runs, channels.
- `src/event_loop.rs`: the timed refresh, and what a key leads to.
- `src/ui.rs`: what the screen shows, as texts, colours and places.
- `src/report.rs`: the configuration in words.
- `src/text.rs`: small text functions.
- `src/laws.rs`: what holds of the viewer as a whole.
- `tests/`: examples of all of it.
- `app/`: the program.

Every function in `src/` is verified against its contract, apart from the few that call `std`,
`chrono` or `ratatui`: their doc comments say what is taken on trust.
