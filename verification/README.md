# pimpmypfp

The decisions of a Solana program that sells picture edits for a fee paid
in an SPL token, verified with Verus.

- `src/key.rs`: account addresses as 32 plain bytes.
- `src/state.rs`: the configuration account, the events, the error codes
  and the reasons a request is refused.
- `src/cpi.rs`: instructions for the SPL token and associated token account
  programs, built by those crates behind trusted wrappers.
- `src/program.rs`: each instruction of the program as a function from the
  accounts it is given to the new configuration, the instruction to invoke
  and the event to report, with its contract.
- `src/laws.rs`: what holds across instructions: only the owner
  reconfigures, the owner never changes, what is set is what is reported
  and charged, withdrawals create no lamports.
- `app/lib.rs`: the Anchor program around the library: account
  deserialization, invocations, events and lamport writes.
