# parsec_se_driver

A PSA Crypto secure element driver that hands key management and asymmetric
signing to the Parsec service, through Parsec's TPM provider.

- `src/` is the verified library: the PSA status codes and the status reported
  for every error of the Parsec client (`status`), the naming of the Parsec key
  behind each key slot (`key_slot`), the choice of the TPM provider at
  initialisation (`provider`), and the copy of returned data into an output
  buffer (`output`).
- `app/` holds the driver table and its C entry points, which read their
  arguments through raw pointers, talk to the Parsec service, and call the
  library for every decision. It needs the `interface` feature of
  `psa-crypto` (the secure element driver types), which builds only against
  the Mbed TLS headers.
- `tests/` runs the library on concrete values.
