# plats_solana

The rules of a task-reward vault on Solana, verified with Verus.

A task's authority opens a vault with a first deposit and a prize per user; tokens can be
deposited and withdrawn; the vault's reward account pays each user the prize once (or what
is left, when less). Each instruction changes the vault's record and returns the token
transfer it asks the token program to make.

- `src/` — the verified library: addresses (`pubkey`), errors, the account data
  (`schemas`), the instruction accounts and context (`context`, `instructions`), the
  transfer requests and the treasurer's signer seeds (`cpi`), the program's entry points
  (`plats_solana`), and the laws that span instructions (`laws`).
- `app/` — the Anchor program around it: account checks, account storage, token transfers
  through the token program, and logs.
- `tests/` — tests of the library on concrete values.
