# Nucleus Dashboard API

A small HTTP service that shows the state of a Verisense chain: its nuclei,
accounts, head block and node. The service's decisions and renderings form a
library verified with Verus; the network work around them is ordinary Rust.

## Layout

- `src/` — the verified library
  - `config.rs` — default endpoint, SS58 prefix, client defaults, count cap
  - `rpc_client.rs` — client settings and their builder, the transport choice,
    the two-step health probe, and the address of a nucleus's own RPC endpoint
  - `walk.rs` — paging and counting over a storage walk, as state machines,
    with the laws that a page is the window `[offset, offset + limit)` and
    that a capped count is `min(n, cap)`
  - `nucleus.rs` — how nuclei, accounts, blocks and the node are shown
  - `text.rs` — decimal, hexadecimal, byte-list and UTF-8 renderings
  - `address.rs` — SS58 addresses (through sp-core)
- `app/` — the axum server, the jsonrpsee client and the subxt chain client
- `tests/` — tests of the library on concrete values

The service listens on `http://0.0.0.0:4001` unless `PORT` says otherwise, and
reads the chain endpoint from `NUCLEUS_RPC_URL`.

## Building `app/`

`app/` does not build as it stands. It needs two things that are not in this tree:
the `subxt` crate, which is not among the dependencies because, with sp-core beside
it, it resolves to more packages than the build allows; and the runtime metadata
file `artifacts/polkadot_metadata_full.scale` that `#[subxt::subxt]` reads.
