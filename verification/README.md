# platonic_core

A sans-IO harness kernel for replayable agent runs, verified with Verus.

The library models runs, turns, lane-budgeted context packs, tool proposals
and validated calls, effect classes and policy decisions, a durable event
ledger, a pure run state machine, and a readback projection over recorded
ledgers. Hosts perform all IO and feed results back as recorded events.

## Layout

```text
src/error.rs       shared error type and its spec view
src/ids.rs         non-blank identifier newtypes
src/json.rs        JSON values carried by tool inputs and results
src/message.rs     model-facing messages
src/context.rs     context packs with saturating budget validation
src/policy.rs      effect classes and the fail-closed baseline policy
src/tool.rs        tool proposals, validated calls and results
src/event.rs       the durable event ledger
src/run.rs         the run state machine and its transition relation
src/projection.rs  replay-validated readback
src/laws.rs        laws of the state machine, proved over the relation
app/               serde wire copies, JSON bridge, displayable errors
tests/             scenario tests
```

`RunState::apply` is proved to implement the spec relation `apply_record`
exactly: an accepted record yields the successor state, a rejected one leaves
the state unchanged and returns the error the relation names.
`RunReadback::from_events` is proved to agree with `replay`.
