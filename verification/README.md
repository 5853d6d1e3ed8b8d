# paramant

Post-quantum messaging core, verified with Verus.

- `src/` is the library; every function in it has a contract, proved by
  Verus except for the trusted wrappers described below:
  the PQHB wire format (`wire`), length-hiding padding (`padding`), the
  RFC 6962 Merkle log (`merkle`), the envelope modes (`envelope::send`,
  `envelope::para_share`, `envelope::para_drop`), AES-256-GCM (`aead`),
  HKDF and Argon2id (`kdf`), BIP-0039 mnemonics (`mnemonic`), key and
  signature types (`kem`, `kem::hybrid`, `sig`), and the chat layer
  (`crypto`, `ratchet`, `identity`, `session`). Calls into outside crates
  (AWS-LC, RustCrypto, `hkdf`, `argon2`, `bip39`, `pqcrypto-kyber`, `hex`,
  `serde_json`) sit behind small trusted wrappers (`#[verifier::external_body]`).
  Their bodies are not proved: Verus takes their contracts on trust, and each
  contract says only what the called crate's source and documentation show.
- `app/` is the command-line tool and the Node-API binding, and the liboqs
  operations (ML-KEM-768 key generation and encapsulation, ML-DSA-65,
  SLH-DSA and Falcon), composed with the library.
- `tests/` runs the library against the real outside crates.
