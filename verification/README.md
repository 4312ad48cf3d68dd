# buzz_transfer

Moves the identity of a managed agent from one executor to another so that at
any epoch exactly one executor holds it. The library under `src/` is verified
with Verus; `app/` connects it to PostgreSQL, a relay and a desktop.

| Module | Subject |
| --- | --- |
| `agent_transfer`, `transfer_laws` | the fenced state machine and its laws |
| `transfer_supervisor` | what a runtime does and may report in each phase |
| `transfer_store` | the durable row of an agent |
| `wire`, `coordinator`, `coordinator_route`, `coordinator_handler` | the relay's coordinator, from a signed event to its answer |
| `delivery_queue`, `delivery_worker` | durable delivery of start events with leases, tokens and backoff |
| `transfer_bootstrap` | admission of an event by the started runtime |
| `target_bootstrap`, `worker_table`, `pairs` | the desktop that listens for start events |
| `keys`, `signed_event`, `text` | keys, events and text; all calls into other crates but one |

Reading and writing is left to the caller: an operation is a sequence of steps,
each step names the statement, lookup or connection that comes next, and its
reply leads to the following step. The event kind of transfer coordination is a
parameter of the deployment.

Contracts of functions around calls into other crates speak of named results,
such as `event_verification`, which depend on the arguments alone. The functions
that take such a result as an argument have contracts without names.
