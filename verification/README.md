# swiftremit

The storage layer of the SwiftRemit remittance contract for Soroban, written in
Verus.

- `src/keys.rs`: the contract's storage keys (`DataKey`), their on-host form,
  and the model of a store as a map from keys to typed values.
- `src/host.rs`: the trusted boundary to `soroban_sdk`: the contents of the
  instance and persistent storages, of transfer vectors, and one wrapper per
  host call the library makes.
- `src/types.rs`: remittances, transfer records and daily limits, with their
  on-host forms.
- `src/storage.rs`: the getters and setters of the contract's state, the rate
  limit and the admin check, each with a contract over the model.
- `src/laws.rs`: what a read gives back of a write, what a write leaves alone,
  how an untouched store reads, and how the rate limit behaves over time.

Functions that write storage, and `require_admin`, which records an
authorization requirement with the host, take the `Env` by `&mut`. They must run while a
contract is executing, as inside `Env::as_contract` in the tests.
