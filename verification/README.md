# xaynet_e2e

A verified core for xaynet's end-to-end test driver and the round state
machines it exercises.

- `src/client.rs`: the participant's state machine (awaiting, sum, update,
  sum2) as a function from state and event to state, and the checks its
  tasks make.
- `src/state_machine.rs`: the coordinator's phase cycle, its errors and its
  initialisation and restore decisions.
- `src/chunking.rs`: how a sealed message is split for sending.
- `src/k8s.rs`, `src/json.rs`: the Kubernetes bookkeeping and the patch
  documents it sends.
- `src/e2e.rs`: the driver's participant settings, batches and phase
  readings.
- `src/text.rs`: decimal rendering used in messages.
- `app/`: the program around it: Kubernetes, InfluxDB, terminal output.

The program in `app/` sets the coordinator up and follows its phases, but it
cannot build or run participants: the coordinator API client and the
participant's message composition belong to xaynet's client crate, which
this project does not depend on, so the driver stops at the first
participant step.
