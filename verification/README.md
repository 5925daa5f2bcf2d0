# kryptering

Signing, verification and key handling with key material in memory or on a
PKCS#11 token, verified with Verus.

## The library

- `algorithm`, `error`, `text`, `bytes`: names of algorithms, the error type, and
  the small functions on texts and byte strings that the rest is built from.
- `digest`: hashing, HMAC, comparison of authentication codes.
- `key`: key material. Elliptic-curve keys admit only bytes that the curve's crate
  reads as a key.
- `secret`: bytes and texts that are wiped when they are dropped. Keys and PINs are
  held in them, or wiped in the same way.
- `software`: one file for each signature family, `software::context` with the
  message that a post-quantum signature covers, and `software::sign` with
  `SoftwareSigner` and `SoftwareVerifier`.
- `pkcs11`: the token backend as chains of steps. A step holds the request to make
  of the token and takes its reply.
- `software::laws` and `pkcs11::laws` state what holds of these together: that
  signed data verifies, that encodings are read back, that the frames of the cipher
  come off again.

The primitives come from outside crates. Each call stands in a small function of
its own whose contract says what is relied on. Where a result cannot be spelled
out, it has a name (`rsa_pkcs1v15_signature`, `ecdsa_accepts`), and the contracts
above speak of the name.

Some keys cannot sign: an RSA modulus may be too short for the encoded hash, and a
DSA group too small for a nonce. `Signer::sign` asks that the key can;
`SoftwareSigner::checked_sign` finds out.

## The rest

`app/` attaches the token backend to the `cryptoki` crate. `tests/` runs the
library against known values and against the outside crates.
