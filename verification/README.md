# amplifier-relayer

The verified core of a relayer between a chain and the Axelar Amplifier API.

`src/` is checked by Verus:

- `codec` — Borsh framing of UTC timestamps, optional timestamps, strings and
  JSON values, with round-trip lemmas for timestamps and strings; a JSON
  value reads back as serde_json's parse of the text that was written.
- `retry` — the retry policy (attempt budget, the exponential back-off's
  delays, abort and rate-limit handling) and a lemma on how a whole run ends.
- `health_check` — the answers to `/healthz` and `/readyz`.
- `config` — configuration checks (`ValidateConfig`).
- `telemetry` — OTLP exporter endpoints.
- `metrics` — the component metrics: which named counter of which meter
  each call adds to, by how much and with which attributes.
- `tracking` — throughput samples.
- `ingester`, `publisher`, `to_amplifier`, `propagation`, `identity` — the
  decisions and framing of the queue ingester, the Pub/Sub publisher, the
  command forwarder, trace-context propagation, the client identity and the
  set-up of the authenticated Amplifier API client, one builder call at a
  time.

`app/` holds the asynchronous and I/O side: the HTTP server, the retry loop,
telemetry and logging set-up, configuration loading, the displayable API
error, and the floating-point rate.
