//! The ways in which a stage of the pipeline can fail.

use vstd::prelude::*;
use vstd::string::StringExecFns;

verus! {

/// Why a stage could not do its work.
#[derive(Clone, Copy, PartialEq, Eq, Debug, Structural)]
pub enum PackError {
    /// The encoder reported a failure while compressing.
    Compression,
    /// The system gave no secure randomness for the key material.
    Entropy,
    /// The bytes are no ciphertext made with this key material.
    Decryption,
    /// The bytes are no compressed stream.
    Decompression,
}

impl PackError {
    /// The text that reports this failure.
    pub open spec fn text(&self) -> Seq<char> {
        match self {
            PackError::Compression => "compression failed"@,
            PackError::Entropy => "no secure randomness available"@,
            PackError::Decryption => "decryption failed"@,
            PackError::Decompression => "decompression failed"@,
        }
    }

    /// The text that reports this failure.
    pub fn describe(&self) -> (text: String)
        ensures
            text@ == self.text(),
    {
        match self {
            PackError::Compression => String::from_str("compression failed"),
            PackError::Entropy => String::from_str("no secure randomness available"),
            PackError::Decryption => String::from_str("decryption failed"),
            PackError::Decompression => String::from_str("decompression failed"),
        }
    }
}

} // verus!
