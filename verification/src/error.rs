//! The ways in which an operation of this crate can fail.

use vstd::prelude::*;

verus! {

/// What went wrong. An error carries nothing but its kind, so that it cannot
/// give away a length or a place in secret material.
#[derive(Clone, Copy, Debug, PartialEq, Eq, PartialOrd, Ord, Structural)]
pub enum KyberLibError {
    /// An input has the wrong length. Two parties that use different
    /// parameter sets see this.
    InvalidInput,
    /// A secret key and a public key that were imported together do not
    /// belong together.
    InvalidKey,
    /// More random bytes were asked for than the buffer can hold.
    InvalidLength,
    /// A ciphertext could not be authenticated. Decapsulation never reports
    /// this: it answers a forged ciphertext with an unrelated secret.
    Decapsulation,
    /// The source of randomness failed to fill a buffer.
    RandomBytesGeneration,
}

impl KyberLibError {
    /// The sentence that describes the error.
    pub open spec fn message(self) -> Seq<char> {
        match self {
            KyberLibError::InvalidInput => "Function input is of incorrect length"@,
            KyberLibError::InvalidKey => "The secret and public key given does not match."@,
            KyberLibError::InvalidLength => "The length of the input buffer is invalid."@,
            KyberLibError::Decapsulation => {
                "Decapsulation Failure, unable to obtain shared secret from ciphertext"@
            },
            KyberLibError::RandomBytesGeneration => "Random bytes generation function failed"@,
        }
    }

    /// The sentence that describes the error, as a string.
    pub fn to_string(&self) -> (text: String)
        ensures
            text@ == self.message(),
    {
        match self {
            KyberLibError::InvalidInput => "Function input is of incorrect length".to_owned(),
            KyberLibError::InvalidKey => "The secret and public key given does not match.".to_owned(),
            KyberLibError::InvalidLength => "The length of the input buffer is invalid.".to_owned(),
            KyberLibError::Decapsulation => {
                "Decapsulation Failure, unable to obtain shared secret from ciphertext".to_owned()
            },
            KyberLibError::RandomBytesGeneration => "Random bytes generation function failed".to_owned(),
        }
    }
}

} // verus!
