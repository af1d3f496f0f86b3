# gdom

The verified core of GDOM, a desktop tool that moves the ownership of Google Drive files
between two connected personal accounts. The library is written in Verus: its public
functions state what they return in contracts that Verus proves, and the properties that
span several functions stand as proof functions.

## Layout

- `src/` — the library:
  - `item`, `classifier`, `scanner`: item states, what a scan keeps, and how a scan
    walks folders page by page.
  - `transfer`, `queue_service`, `job_service`: the decisions of an ownership transfer,
    the queue of waiting jobs, and the guards and error mappings of the job service
    (including the single transfer slot).
  - `final_report`, `preflight`: the reports and their counts.
  - `redact`, `logs`: secret redaction, log file names, rotation and the redacting
    writer.
  - `account_*`, `connect_account`, `credentials`, `drive_browser`: account lifecycle
    checks, the access-token cache and the Drive browser's checks.
  - `root_parser`, `urls`: reading a folder ID from a raw ID or a Drive URL.
  - `commands/`: the records and errors the interface exchanges, and the update flow.
- `tests/` — ordinary Rust tests against the library.
- `app/` — the executable around it: file logging through `tracing`, the size-rolling
  log file, serde copies of the interface records, and opening the system browser.

Calls into `url`, `semver` and a few `std` functions go through small trusted wrappers
whose contracts state what those functions document; everything else is proved.
