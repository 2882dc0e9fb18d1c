# pendzl_contracts

Verified building blocks for ink! smart contracts: PSP22 fungible tokens
(metadata, mintable, vault), ownable, access control, pausable and general
vesting.

- `src/` is the library, verified with Verus. Contract storage is a plain
  value (`StorageMap` stands for the host's key-value storage), and what the
  chain supplies (the caller, the block time, replies of other contracts) is
  passed in as arguments. Operations return the events to emit.
- `app/` is the ink! glue: environment access, cross-contract calls, event
  emission and the SCALE-encoded copies of the library's types.
- `tests/` runs the library on concrete values.
