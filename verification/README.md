# api_error

The error type of a client for model providers, verified with Verus.

An `ApiError` tells what went wrong between a request and its answer. The
library classifies it (`safe_failure_class`), says whether a retry is worth
while (`is_retryable`, `retry_after`), finds the identifier of the request
(`request_id`), and writes the message for the user (`render`). Contracts state
the result of each function exactly, with one exception: the text of an I/O
error, alone or inside a JSON error, is the system's own, so `render` promises
for such an error only what stands around that text. `src/laws.rs` states what
holds of all errors together.

- `src/` is the verified library. All that it trusts is in `src/outside.rs`.
- `tests/` runs it, with the real `reqwest` and `serde_json`.
- `app/` gives the error `Display`, `std::error::Error` and the conversions that
  need the environment of the process.
