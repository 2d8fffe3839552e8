//! What can go wrong with a vault, and the text shown for each fault.

use vstd::prelude::*;
use vstd::string::StringExecFns;

verus! {

/// Which access to the vault file failed.
#[derive(Clone, Copy, Debug, PartialEq, Eq, Structural)]
pub enum IoFault {
    /// The file exists and could not be read.
    Read,
    /// The file could not be written.
    Write,
}

/// Which part of a vault is malformed.
#[derive(Clone, Copy, Debug, PartialEq, Eq, Structural)]
pub enum FormatFault {
    /// The file is not an envelope of salt, nonce and ciphertext.
    Envelope,
    /// The salt is not printable-encoded binary.
    Salt,
    /// The nonce is not twelve bytes of printable-encoded binary.
    Nonce,
    /// The ciphertext is not printable-encoded binary.
    Ciphertext,
    /// The decrypted bytes are not text.
    Utf8,
    /// The decrypted text is not a list of entries.
    Entries,
}

/// A failed vault operation.
#[derive(Clone, Copy, Debug, PartialEq, Eq, Structural)]
pub enum VaultError {
    /// The filesystem failed.
    Io(IoFault),
    /// The envelope or its contents are malformed.
    Format(FormatFault),
    /// The tag did not verify: a wrong passphrase, or a corrupted file.
    Authentication,
    /// The index is not that of an entry.
    Index,
    /// The entries are too large to seal.
    TooLarge,
}

impl VaultError {
    /// The text shown for the fault.
    pub open spec fn spec_message(self) -> Seq<char> {
        match self {
            VaultError::Io(IoFault::Read) => "Failed to read file"@,
            VaultError::Io(IoFault::Write) => "Failed to write file"@,
            VaultError::Format(FormatFault::Envelope) => "Invalid file format"@,
            VaultError::Format(FormatFault::Salt) => "Invalid salt"@,
            VaultError::Format(FormatFault::Nonce) => "Invalid nonce"@,
            VaultError::Format(FormatFault::Ciphertext) => "Invalid ciphertext"@,
            VaultError::Format(FormatFault::Utf8) => "Invalid UTF-8"@,
            VaultError::Format(FormatFault::Entries) => "Invalid JSON"@,
            VaultError::Authentication => "wrong master password?"@,
            VaultError::Index => "Invalid index"@,
            VaultError::TooLarge => "Encryption failed"@,
        }
    }

    /// The text shown for the fault.
    pub fn message(&self) -> (r: String)
        ensures
            r@ == self.spec_message(),
    {
        let text: &str = match self {
            VaultError::Io(IoFault::Read) => "Failed to read file",
            VaultError::Io(IoFault::Write) => "Failed to write file",
            VaultError::Format(FormatFault::Envelope) => "Invalid file format",
            VaultError::Format(FormatFault::Salt) => "Invalid salt",
            VaultError::Format(FormatFault::Nonce) => "Invalid nonce",
            VaultError::Format(FormatFault::Ciphertext) => "Invalid ciphertext",
            VaultError::Format(FormatFault::Utf8) => "Invalid UTF-8",
            VaultError::Format(FormatFault::Entries) => "Invalid JSON",
            VaultError::Authentication => "wrong master password?",
            VaultError::Index => "Invalid index",
            VaultError::TooLarge => "Encryption failed",
        };
        String::from_str(text)
    }
}

} // verus!
