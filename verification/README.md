# traz_log

A verified model of FireOPS, a chain-of-custody program for the equipment
used against forest fires: the brigade's personnel with their roles, the
inventory of equipment, the fire incidents, the assignment of equipment to
operators, the reports from the field, and the return of the equipment.

## Layout

- `src/state.rs`: the accounts (configuration, personnel, equipment,
  incidents, log entries), the domain enums, the 32-byte keys, and the space
  allocated to each account.
- `src/error.rs`, `src/events.rs`: the program's refusals and events.
- `src/instructions/`: one module per instruction: the accounts it reads and
  writes, the checks it makes in order (`refusal`), and what it changes; the
  `handler` of each is proved against that contract.
- `src/ledger.rs`: all the accounts, addressed by the keys of their seeds.
- `src/program.rs`: each instruction run against the ledger, with the account
  checks that come with it (an account read must exist, an account created must
  not, an account written must fit its space), all or nothing.
- `src/invariants.rs`: what every instruction keeps true, with the proofs.
- `src/laws.rs`: laws over instructions and sequences of them.
- `app/`: the on-chain program around the library: it resolves the accounts,
  reads the clock, calls the handlers, writes the accounts back and emits the
  events.

## Account sizes

Each account is allocated 8 bytes of discriminator plus the largest encoding
of its fields, and an instruction whose account would not fit is refused.

- Configuration: 50 bytes.
- Personnel: 189 bytes (name and specialty reserve 64 bytes each).
- Equipment: 239 bytes. The description reserves 128 bytes, and the account
  also keeps `log_count`, the number of log entries made for the equipment:
  each report is created at the address given by that count, and the reports
  are numbered by it. Without those 8 bytes the account would take 231 bytes;
  with them it takes 239.
- Incident: 191 bytes. The incident keeps its coordinates (128 bytes reserved),
  which also describe the place; the description passed when an incident is
  opened is accepted and not stored.
- Log entry: 350 bytes (the notes reserve 256 bytes).
