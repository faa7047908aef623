# near_cli_rs

The decisions of a handful of NEAR command-line commands, verified with Verus:
creating an account (first steps), deleting an account, deleting access keys,
importing an account with a key pair, calling a contract function in a
transaction, and relaying a signed delegate action.

- `src/` is the verified library. Each command module builds its chain of
  contexts and the `ActionContext` it hands over (`transaction.rs`); the
  import-account login is a step function (`import_account.rs`) whose caller
  does the reading, the network lookup and the saving. Account IDs, public keys
  and text helpers have their own modules; `laws.rs` proves properties shared by
  all commands.
- `app/` holds the input/output around it: reading lines, the environment,
  logging, and conversion to the `near_primitives` and `near_crypto` types.
- `tests/` runs the library on concrete values.
