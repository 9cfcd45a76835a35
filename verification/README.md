# popsicle

The sequencer-grouping pallet and the chain specification of the Popsicle
parachain, as a Verus-verified library.

- `src/sequencer_grouping.rs`: the pallet's storage (`Something`, `GroupID`,
  `NextRoundStorage`) and its calls as a state machine over `PalletState`;
  each call's contract is the spec function of the same name, and the laws
  (read after write, refused origins, increments, group ids) are proof
  functions named `law_*`.
- `src/keys.rs`: sr25519 development keys derived from `//<seed>` by
  `sp_core`, and account ids made from them by `sp_runtime`.
- `src/chain_spec.rs`: the development and local test network chain
  specifications and the genesis configuration they build.
- `app/`: the FRAME pallet that hosts the library's logic, and the serde form
  of the chain-spec extensions.
