# asl_stack

The protection-domain logic of the AIEONYX sovereign stack on seL4, with its
behaviour stated in contracts and proved by Verus.

- `src/` — the verified library.
  - `common` — PD identifiers, data tiers, the sovereign proof value.
  - `trustgraph` — capability tokens, trust scores and the capability graph
    (commissioning, token validation with anti-replay, revocation).
  - `soma` — sovereign identity: the composite identity hash, the 3-of-3
    threshold registry and outgoing/incoming packet binding.
  - `multinode` — the node boot state machine and the mesh coordinator.
  - `pds` — the PD state machines: shell, EdisonDB, Onyxia, Phoenix-Desktop,
    the HANIEL canvas, AXON exec, the ARPi broker paths, the sovereign stack
    session, the AXON REPL evaluator, and the Phoenix init, console and
    watchdog PDs.
  - `microkit` — the driver and engine PDs of the Microkit build (storage,
    input, USB, network, HANIEL, EdisonDB, Onyxia, GENESIS, ARPi,
    AXON-Bridge), the scheduling and timing contracts, and the decimal and
    text output of the debug console.
- `tests/` — executable tests of the library.
- `app/` — the PD entry points: they keep each PD's state between calls,
  take the values that come from the other crates of the AIEONYX workspace,
  and write what the library produces to the serial line.

Every PD entry of the library returns what it would print (a sequence of
text pieces or of bytes) rather than printing it, so the exact output is
part of each contract.
