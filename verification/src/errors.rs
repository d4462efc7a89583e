//! What an operation can fail with.
use vstd::prelude::*;

verus! {

/// A failure reported by the master-key backend, or by the source of random
/// bytes that stands in for it when a key is generated.
#[derive(Debug, Clone, Copy, PartialEq, Eq, Structural)]
pub enum BackendError {
    /// The backend could not be reached or did not answer in time.
    Unavailable,
    /// The backend refused the request.
    AccessDenied,
    /// The backend does not know the wrapped key, or it is malformed.
    InvalidKeyReference,
}

/// The failure of an operation.
#[derive(Debug, Clone, Copy, PartialEq, Eq, Structural)]
pub enum KmsAeadError {
    /// The cipher could not seal the value.
    EncryptionFailure,
    /// The cipher did not accept the ciphertext under the key and the
    /// associated data. A wrong key, other associated data and a changed
    /// ciphertext are all reported so, and nothing tells them apart.
    AuthenticationFailure,
    /// The backend could not be reached. The whole operation may be tried
    /// again.
    BackendUnavailable,
    /// The backend refused the request.
    AccessDenied,
    /// The backend does not know the wrapped key, or it is malformed.
    InvalidKeyReference,
}

/// What an operation ends with.
pub type KmsAeadResult<T> = Result<T, KmsAeadError>;

impl KmsAeadError {
    /// The error of an operation whose backend request failed with `error`.
    pub open spec fn of_backend(error: BackendError) -> KmsAeadError {
        match error {
            BackendError::Unavailable => KmsAeadError::BackendUnavailable,
            BackendError::AccessDenied => KmsAeadError::AccessDenied,
            BackendError::InvalidKeyReference => KmsAeadError::InvalidKeyReference,
        }
    }

    /// Whether a caller may try the operation again.
    pub open spec fn retryable(self) -> bool {
        self == KmsAeadError::BackendUnavailable
    }

    /// Keeps the class of a backend failure: each backend error has an error
    /// of its own here.
    pub fn from_backend(error: BackendError) -> (result: KmsAeadError)
        ensures
            result == Self::of_backend(error),
    {
        match error {
            BackendError::Unavailable => KmsAeadError::BackendUnavailable,
            BackendError::AccessDenied => KmsAeadError::AccessDenied,
            BackendError::InvalidKeyReference => KmsAeadError::InvalidKeyReference,
        }
    }

    /// Whether a caller may try the operation again: only when the backend
    /// was unavailable.
    pub fn is_retryable(&self) -> (result: bool)
        ensures
            result == self.retryable(),
    {
        match self {
            KmsAeadError::BackendUnavailable => true,
            _ => false,
        }
    }
}

} // verus!
