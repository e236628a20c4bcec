# siri_rs

A data model of CEN SIRI, the European standard for exchanging real-time public
transport data, written in Verus: every function of the library carries a
contract that the verifier proves.

* `src/` — the verified library: the `<Siri>` envelope and the framework
  messages, the Production Timetable and General Message services, the journey
  model, references, locations, the schema's code lists, durations, timestamps
  and open content. `src/laws.rs` states what holds across functions.
* `tests/` — tests on concrete values.
* `app/` — the XML binding of the status-check exchange (quick-xml and serde) and
  the conversion of timestamps to and from chrono, outside the verifier.
