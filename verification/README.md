# geneva_uploader

The client side of the Geneva Ingestion Gateway (GIG): what is sent, where to, and what a reply
asks of the caller. The library under `src/` is verified with Verus; `app/` is the ordinary Rust
around it (network, collaborators). The clock is read in `retry`, behind a trusted function.

- `error`: error kinds, the classification of replies, error texts
- `retry`, `time`: the `Retry-After` header, spans and points in time
- `reply`: the gateway's replies
- `uri`, `headers`, `text`: addresses, headers, text
- `uploader`: one upload as a state machine
- `client`, `otlp`, `payload`, `raw_batch`: configuration, batches, the user-facing client
