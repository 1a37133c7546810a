# Transaction signer

The logic of an offline signer for MobileCoin transactions, verified with Verus. A wallet that
holds no spend key prepares requests; the signer answers them on a machine without a network, or
on a hardware device.

- `src/` is the verified library.
  - `operations` answers the commands: account keys, key images, signatures.
  - `session` walks through the signing of a transaction proposal, and `session_laws` states what
    holds of every such session.
  - `transaction` completes signing data and maps key images to the inputs that a transaction
    spends.
  - `account` reads private keys and writes accounts for import.
  - `files`, `hexadecimal` and `index` deal with file names, hexadecimal text and subaddress
    indices; the calls to other crates and to the standard library stand there.
  - `types`, `proposal`, `traits` and `error` hold the data, what a signer has to provide, and
    what can go wrong.
- `app/` is the program around it: command line, files, JSON and cryptography.
- `tests/` runs the library.
