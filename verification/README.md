# nysa

Verified request-handling logic of Nysa, a small HTTP server for the
ESP32-WROOM-32 with WiFi provisioning and filesystem updates over HTTP.

- `src/` — the library, proved with Verus:
  - `utils.rs`: MIME types, path sanitization, WiFi credential limits,
    constant-time key comparison, error-message sanitization;
  - `text.rs`: character searches used by the above;
  - `storage.rs`: what is written to NVS to save or clear credentials and
    how stored values are read back (with the read-back laws);
  - `ota.rs`: the chunked filesystem-update stream (never writes past the
    partition);
  - `web.rs`, `status.rs`: authentication and the answers of each route;
  - `json.rs`: JSON string escaping for the status document, with its
    decoding law;
  - `startup.rs`: HTTP server start retries.
- `app/` — the firmware around it (ESP-IDF drivers, NVS, HTTP server,
  WiFi, flash), ordinary Rust.
- `tests/` — tests of the library.
