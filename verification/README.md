# ec_service_lib

Verified request/response logic of the secure-partition services that relay
Normal-World ACPI requests (Battery, Thermal, TimeAlarm) to the embedded
controller.

- `src/` — the library, verified with Verus:
  - `relay.rs`: what a service hands to the EC relay and the reply-body helpers;
  - `wire.rs`: little-endian field access;
  - `ffa.rs`: the FF-A register payload, the two-step service protocol
    (`FfaStep`), request-body extraction and scalar payloads;
  - `battery.rs`, `thermal.rs`, `time_alarm.rs`: each service's requests,
    reply decoding, FF-A dispatch, and the laws they obey;
  - `panic_guard.rs`: the panic handler's re-entry decision.
- `app/` — the outside work: FF-A message conversion, the relay round-trip,
  and the bare-metal panic handler.
- `tests/` — scenario tests and concrete checks of the laws.

Every operation is split in two: a `*_request` function says what the relay
sends, and the function named after the operation (`get_bst`,
`get_temperature`, ...) decodes the reply; `ffa_request` / `ffa_response` do
the same for a whole FF-A message.
