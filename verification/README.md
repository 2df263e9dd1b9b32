# apple_intelligence

The verified core of a Tauri v2 plugin that exposes Apple's on-device
FoundationModels (text) and ImagePlayground (images) through a Swift bridge
with a C ABI.

- `src/` — the library, verified with Verus:
  - `session.rs`: context ids and the table of requests waiting for a native
    completion, with the laws on ids and ended requests.
  - `registry.rs`: the one counter and the three pending tables together,
    whose type invariant keeps every new id fresh (begin, settle a dispatch,
    complete, forward a streamed chunk).
  - `bridge.rs`: what each native status and completion means: dispatch
    refusals, dropped channels, the mapping of the bridge's error names to
    errors (a refused response names its session as not found), session
    creation and closing, tool-call results.
  - `image.rs`: the image request built from the caller's options (limit
    capped at 4) and the image count read from the final payload.
  - `ephemeral.rs`: the step function of one-shot generation's throwaway
    session (create, run, close whatever happened, return the work's result).
  - `error.rs`: the error type, its view and the message of each error.
  - `cstring.rs`: the check that a string can cross the C ABI.
  - `decimal.rs`: decimal rendering of status codes and session ids.
  - `json.rs`: the calls into `serde_json` that the library makes.
- `app/` — the Tauri plugin itself: native bindings, commands, the global
  pending tables behind locks, channels and event emission.
- `tests/` — tests of the library on concrete values.
