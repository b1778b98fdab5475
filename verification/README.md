# dannesk

The core of the Dannesk XRP and Bitcoin wallet, verified with Verus.

`src/` is the library, verified by Verus against its `requires`/`ensures`
contracts. The calls into the hashing, encoding, key-derivation and XRP
Ledger crates sit behind small trusted wrappers whose contracts name what
those crates compute.

- `pin`, `pin_screen`: the six-digit PIN, its salted SHA-256 record, the PIN
  entry screen and the change-PIN form.
- `bridge`, `create_flow`, `seed_entry`: recovery phrases, BIP-32 key
  derivation, XRP and Bitcoin addresses, the steps of creating or
  importing a wallet, and the steps of authenticating one for signing
  (from the phrase itself, or from the stored encrypted phrase and its
  passphrase). Seeds and decrypted phrases are zeroized once the keys are
  derived.
- `amounts`, `assets`, `signing`, `codec`, `ws::trustset`,
  `ws::offer_create`: XRP amounts in drops, the issued currencies, and the
  signed `TrustSet` and `OfferCreate` blobs (built only for accounts and
  issuers that are classic XRP Ledger addresses, which the binary codec
  can encode).
- `ws`: the requests sent to the wallet backend and what the wallet makes of
  its replies; `rates`: the exchange-rate feed and the table of rates it
  keeps.
- `state`, `wallet`, `screens`, `progress`, `timestamps`, `tx_cards`: the
  shared state, the settings and wallets restored at start-up, the screen
  shown, the progress overlay and its timing, the masking of hidden
  balances, and the transaction lists and their cards.
- `text`, `numbers`, `json`: text, integer and JSON helpers with their
  specifications.

`app/` is a small terminal front end: it keeps the files in the wallet's
configuration directory, converts JSON documents for the library, and walks
the PIN screen.

`tests/` runs the library against the real outside crates.
