# beethoven_swaps

Verified builders for the cross-program swap instructions that a Solana
router sends to many exchange programs.

For each protocol, `src/protocols/<name>.rs` holds

- the parser of the protocol's swap data (`...SwapData::try_from`),
- the parser of the account list handed to a swap (`...SwapAccounts::try_from`
  or `...SwapRemaining::try_from`), with a spec saying which account lands in
  which field,
- `instruction`, which lays out the accounts (with their writable and signer
  roles) and the instruction bytes the protocol's program expects, with an
  exact contract over spec functions,
- `swap_signed` / `swap` (or `swap_with_parameters_signed`), which build the
  instruction and invoke it.

The shared parts:

- `src/cpi.rs`: account roles and the instruction value the builders return;
- `src/bytes.rs`: little-endian encoding helpers;
- `src/runtime.rs`: the boundary with `solana-account-view` and
  `solana-instruction-view` (account addresses and data, and the invocation);
- `src/router.rs`: the routing program's instruction formats and the
  decisions taken between the legs of a route;
- `src/error.rs`: the error type.

`app/lib.rs` maps errors to the runtime's `ProgramError`, takes an
instruction apart into a deposit or a single swap, and runs a route's legs
through a protocol dispatcher.

SolFi (the first version) is not among the protocols: only its
parameterised swap is at hand, without the program id, discriminator and
protocol type it is written against, so its instruction cannot be laid out
exactly. SolFi V2 is in `src/protocols/solfi_v2.rs`.

Builders are generic over the account type, so the tests in `tests/` run them
on plain integers standing for accounts.
