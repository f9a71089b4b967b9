# ersha_dispatch

The decision logic of a regional ingestion gateway that sits between edge
devices and a central server, written in Verus and proved against its
contracts.

- `src/config.rs`: the configuration and the values used when no file is found.
- `src/domain.rs`: identifiers, device statuses, alerts and the requests sent on.
- `src/alerts.rs`: the alerts a status report raises (low battery, faulty sensors).
- `src/uploader.rs`: the uploader as a state machine (connect with exponential
  backoff, heartbeat, forward events, upload batches), its requests, and its laws.
- `src/registration.rs`: the HTTP URL of the central server and the registration
  records of the dispatcher and its simulated devices.
- `src/startup.rs`: the dispatcher's identity read from its configuration.
- `src/ulid_codec.rs`: ULID text, read and written through the `ulid` crate,
  and the clock read through `jiff`.
- `src/text.rs`: decimal rendering and pattern replacement.
- `app/`: the program around the library: command line, configuration file,
  HTTP, TLS and RPC.
