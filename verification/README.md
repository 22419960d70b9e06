# burnchains

What the Stacks chain needs to know of the burnchains that it can be anchored to, written and
verified in Verus.

- `src/pox.rs`: proof-of-transfer parameters and the calendar of reward cycles
- `src/params.rs`, `src/constants.rs`: the supported networks
- `src/transaction.rs`, `src/bitcoin.rs`, `src/address.rs`: burnchain transactions
- `src/view.rs`: a node's view of the burnchain
- `src/error.rs`: what can go wrong
- `src/hash.rs`, `src/hex.rs`, `src/digest.rs`: hashes and their text
- `src/laws.rs`: what holds between these
- `app/`: text, error and serialization traits, which are not verified

The library trusts `sha2::Sha256::digest` to be a function of its argument, and carries
`rusqlite::Error` and `std::io::Error` along without looking inside.
