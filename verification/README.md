# torca

The provider, contract and runtime-support logic of the Torca messenger as a
Verus library. Verus proves the executable functions in `src/` against their
`requires`/`ensures` contracts. The exceptions are marked
`#[verifier::external_body]`: the small wrappers around `serde_json`, `url`,
`hex` and `std`'s locks and queues, whose contracts are trusted and say in
their doc comments what they claim of the outside code, and the opaque
lane, listener and registry holders of the in-memory transport. A few
functions state nothing about a result because there is none to state, such
as `MemoryNetwork::new`, whose effect is on the shared registry only. The
two ends of an in-memory pair share locked queues; the contracts state what
each call does to a queue while it holds the lock, not what the other end
reads later.

## Layout

- `src/contract/` — the native contract: generated names and wire values,
  the application snapshot model, its projection into bridge records, and
  the decoding of application commands and pairing bootstrap payloads.
- `src/bridge.rs`, `src/native_json.rs`, `src/native_engine.rs` — bridge
  results and snapshots, the hand-written JSON the native ABI returns, and
  the result texts of one engine instance.
- `src/host_runtime.rs`, `src/runtime_support.rs`, `src/transition_log.rs`,
  `src/notifications.rs`, `src/provider_selection.rs`, `src/native_ids.rs` —
  provider startup and its bootstrap projection, snapshot decoration,
  command and lifecycle handling, the diagnostic log of network
  transitions, platform notifications, provider selection and the
  identifiers minted for new intents.
- `src/iroh_profile.rs`, `src/iroh_config.rs`, `src/iroh_lifecycle.rs`,
  `src/iroh_endpoint.rs`, `src/iroh_router.rs` — Iroh endpoint profiles,
  service configuration, lifecycle decisions, the bounded online probe, the
  replaceable endpoint slot and the incoming connection queues.
- `src/pairing_slots.rs`, `src/pairing_service.rs` — the direct pairing slot
  server and this device's own pairing sessions on it.
- `src/iroh_link.rs` — one Iroh peer link: dial, write and framing decisions.
- `src/capabilities.rs` — what each transport provider promises.
- `src/stored_secret.rs` — 32-byte secrets read back from protected storage.
- `src/onion_endpoint.rs`, `src/tor_peer.rs` — onion endpoint validation.
- `src/webrtc.rs`, `src/webrtc_host.rs` — WebRTC commissioning, signaling
  bounds and the host channel registry.
- `src/memory_transport.rs` — the deterministic in-memory transport.
- `app/` — host glue that Verus does not see: clock, environment, locks,
  randomness, the probe loop and the platform's channel objects.
- `tests/` — the behaviour checked by running the library.
