# mpp-session-mvx

Payment-channel sessions for the Machine Payments Protocol on MultiversX,
as a Verus-verified library.

An employer opens a session by escrowing a payment for a receiver. The
employer signs cumulative vouchers (Ed25519 over the Keccak-256 digest of a
domain-separated message); the receiver settles the latest one to claim what
it adds to the amount already settled. A final voucher closes the session,
paying the receiver and refunding the rest; after the deadline the employer
alone may close it and take back the unsettled escrow.

Layout:

- `src/` — the verified library: session rules (`session.rs`), byte
  layouts that are hashed and signed (`encoding.rs`), the contract's
  endpoints over its storage (`contract.rs`), the keyed storage
  (`store.rs`), the trusted hash and signature calls (`crypto.rs`) and the
  properties proved across endpoints (`laws.rs`).
- `tests/` — scenario tests of the endpoints, with real signatures.
- `app/` — the MultiversX contract that performs what the library decides
  on chain storage, and the command-line interactor.

Two properties are as the code and its tests have them. A voucher binds the
contract's address, the channel, the amount and the nonce behind the
"mpp-session-v1" prefix; it names no network, so it is bound to another
network only through the contract's address there. A channel id is the
Keccak-256 digest of the employer, the receiver and the employer's channel
number; the token is not part of it.
