# wallet_core

The verified core of a wallet for a UTXO ledger with native tokens, NFTs and
storage deposits. The library holds the decisions of the wallet operations
as functions on plain values, each with a contract that Verus proves:

- `output_options`: output options as messages carry them, and their reading
  (decimal amounts, `0x` hex identifiers, 256-bit token amounts).
- `prepare_output`: preparing an output to send: kind, features, the NFT
  output it is built from, the remainder address, and the amounts of the
  output and of its storage deposit return.
- `preparation`: the order of the steps of an output preparation, as a
  state machine: which outside work comes next, when a remainder address or
  the balance is needed, and which error ends it.
- `allot_mana`: merging mana allotments into transaction options.
- `sync`, `sync_outputs`: the sync state machine of an account and the
  combination of the outputs a sync fetched.
- `address_generation`: key indexes and records of generated addresses.
- `message_handler`: panics, errors, secrets and small readings of the
  message interface.
- `hex`, `decimal`, `ids`, `bytes`: the readings and identifiers they share.

Network access, storage and signing stay with the caller, which feeds their
results in; `app/` holds the serde forms of the messages, the loops that run
the library's decisions (output preparation, address generation, mana
allotment, NFT queries, sync, output discovery) against a node, a signer and a
store, and the catching of panics.
