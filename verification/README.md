# opsctl

The verified core of `opsctl`, the command-line client for the Opsd API.

- `src/` is the library, verified with Verus:
  - `text` — trimming, control characters and ASCII case-insensitive comparison.
  - `web_url` — parsed URLs and the rule that a configured server or website
    URL must be a bare `http`/`https` origin.
  - `auth` — the Opsd server, its OAuth routes and request forms, and the
    errors of authentication.
  - `device_flow` — device names, token endpoint answers and the polling
    schedule of the OAuth device authorization flow.
  - `credentials` — where the credential is saved, what it grants at a given
    time, and the logout sequence.
  - `website` — links into the Opsd website.
  - `businesses` — which business commands call the API.
- `app/` is the command-line program around it: argument parsing, HTTP,
  files, the browser and terminal output.
- `tests/` runs the library with the real outside crates.
