# mycelium-std-runtime (policy slot)

A verified library for binding the active selection policy of a site:

- `src/capped_log.rs` — a bounded, append-only log that evicts its oldest entry when full and
  counts every eviction.
- `src/content_hash.rs` — the content address of a policy, with its hexadecimal rendering.
- `src/text.rs` — decimal and digit text used by the error messages.
- `src/policy_mech.rs` — `PolicySlot` (set the active policy, select through it, with capped
  transition and selection logs), `capture` and `replay` of recorded decisions.

The library is generic over the policy and explanation types of the selection engine; the
engine's content addressing is handed over as values and its selection as closures.
`app/lib.rs` binds it to the mycelium selection engine.
