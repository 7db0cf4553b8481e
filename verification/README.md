# mldsa

ML-DSA (FIPS 204) signatures over the `ml-dsa` crate, with contracts checked by Verus.

- `src/lib.rs` – the ML-DSA-65 interface with fixed-size arrays: `generate_keypair`,
  `generate_keypair_from_seed`, `sign`, `try_sign`, `verify`, `KeyPair`.
- `src/mldsa_core.rs` – the same operations for ML-DSA-44, -65 and -87, with an optional
  context string, the spec functions the contracts speak of, and the laws.
- `src/bindings.rs` – byte-level entry points (length checks, `Signer`).
- `src/web.rs` – base64-level ML-DSA-65 entry points.
- `src/base64url.rs` – unpadded URL-safe base64 as a spec function, with its laws
  (alphabet, length, injectivity, decoding an encoding).
- `src/external.rs` – the calls into `ml-dsa`, `zeroize` and `base64`; their contracts are
  trusted.
- `app/lib.rs` – the `wasm-bindgen` layer (JavaScript types, `JsError`).
