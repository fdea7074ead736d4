# pezkuwi_pallets

Verified state machines of the Pezkuwi runtime pallets, written in Verus.

Each pallet keeps its storage in a struct of its own. A dispatchable call is a method that
takes the caller's origin and, where the pallet reads it, the current block number as plain
values; a call that fails leaves every state it was given as it was, as a FRAME transaction
does. Balances live in `ledger::Ledger`, which stands for both the native currency and a
fungible asset; NFTs live in `nfts::NftCollection`; maps keyed by account or index live in
`storage::KeyMap`, which walks its keys in insertion order.

Layout of `src/`:

- `primitives`, `storage`, `ledger`, `nfts`: accounts, origins, weights, the keyed map, the
  balance ledger and the NFT collection that the pallets share.
- `identity_kyc`, `referral`, `tiki`, `staking_score`, `trust`, `perwerde`: identity and KYC,
  referrals confirmed on KYC approval, roles and citizenship NFTs, staking scores, trust
  scores, and education scores.
- `pez_treasury`, `pez_rewards`, `token_wrapper`, `hemwelati_odul`: the PEZ treasury and its
  halving schedule, epoch rewards by trust score, the 1:1 wrapper of the native token, and
  reward claims against a trie root.
- `tiki_migrations`, `treasury_migrations`: storage migrations and their checks.
- `chain_spec`: the Pezkuwi chain specifications (name, id, kind, genesis preset, protocol
  id, token properties) and the genesis of the development chain.
- `keys`: the public keys of secret URIs such as `//Alice`, through `sp-core`.
- `scale`: the calls into `parity-scale-codec`, `sp-core` and `sp-trie`, with the contracts
  that the rest of the library relies on.

`app/` turns the chain specifications, the development genesis and the chain properties
into JSON for the node.
