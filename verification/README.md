# passman

A password vault. Entries are kept as JSON, sealed with AES-256-GCM under a key that
Argon2 derives from a master password; the storage file is a 16-byte salt followed by the
sealed JSON (a 12-byte nonce, the ciphertext and its tag).

- `src/` is the verified library (Verus):
  - `vault/` — the error type, the cipher and key derivation, the entry record, the
    settings record and the storage file format, with the law that reading a storage file
    gives back what writing it put in;
  - `gui/` — the state of the front end: the editor, the idle timer, the status line, the
    pending command, the key material and the rules that move them (unlock, lock on
    idleness, edit, change the master password);
  - `cli.rs`, `entry.rs` — the rules of the terminal tool and its entry record;
  - `text.rs` — trimming, substring search and decimal rendering.
- `app/` is the program around it: file and directory handling, JSON, the egui window and
  the terminal prompts. Run it with `--cli` for the terminal tool.
- `tests/` exercises the library.
