//! A local, single-user password vault: credential generation, an encrypted
//! vault file, and the interactive session that ties them together.
//!
//! The vault is one file: an envelope of salt, nonce and ciphertext. The key
//! is derived from the master passphrase and the salt ([`kdf`]); the entries
//! are written as JSON and sealed with AES-256-GCM ([`codec`]); every change
//! loads the whole vault and writes the whole vault ([`storage`]).
//! Passwords are drawn at random from the enabled character classes
//! ([`generator`]). The session is a state machine over key presses
//! ([`session`], with its table in [`transitions`]), around the generator
//! form ([`app`]) and the entry viewer ([`viewer`]); [`display`] says what
//! text the screen shows of it.
//!
//! The library reads no file, clock, clipboard or terminal. It is handed
//! what the vault file holds and hands back what is to be written. The
//! outside crates it calls stand behind the contracts in [`cipher`],
//! [`armor`], [`json`] and [`random`]; [`text`] holds those of the standard
//! string operations.

pub mod app;
pub mod armor;
pub mod cipher;
pub mod codec;
pub mod display;
pub mod error;
pub mod generator;
pub mod json;
pub mod kdf;
pub mod random;
pub mod session;
pub mod storage;
pub mod text;
pub mod transitions;
pub mod viewer;
