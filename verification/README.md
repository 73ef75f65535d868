# nimiq_core

Verified pieces of a Nimiq node, written in Verus.

- `src/networks.rs`: network identifiers, their wire bytes and names.
- `src/serialization.rs`: the byte encoding traits, with the encodings of
  `u64` (big-endian) and of network identifiers, and their round trips.
- `src/kdf.rs`: Argon2d key derivation (through the `argon2` crate) and the
  exact conditions under which it refuses its parameters.
- `src/clear.rs`, `src/random.rs`: overwriting secrets (through
  `clear_on_drop`) and drawing salts (through `rand`).
- `src/otp.rs`: secrets locked with a password-derived one-time pad; the
  central fact is that a container locked from a secret unlocks, with the same
  password, to that secret.
- `src/client.rs`: the client builder, the checks that turn its settings into
  the configuration of the consensus, and the state machines of the futures
  that initialise and connect a client.
- `app/lib.rs`: drives those state machines as `futures` 0.1 futures and hands
  the configuration to whatever builds the consensus.
