//! Envelope encryption as a protocol core.
//!
//! Secret values are sealed under a session key (the data encryption key),
//! and the session key itself is wrapped by a master-key backend. This crate
//! holds the part that decides: which key a value is sealed under, when a new
//! key is generated and wrapped, what is kept as the current key, and what a
//! caller gets back. It performs no I/O. The cipher and the backend stay
//! outside: an [`Operation`] tells its driver what to ask of them, and takes
//! their answers as events.
//!
//! - [`values`], [`secret`], [`hex_text`], [`errors`]: the bytes that pass
//!   through, and what a call can fail with;
//! - [`cache`], [`protocol`]: the session key cache and the operations, as
//!   they run;
//! - [`model`]: the same as mathematics, which the running code is proved to
//!   compute;
//! - [`contract`], [`laws`], [`sharing`]: what is proved of it.
pub mod cache;
pub mod contract;
pub mod errors;
pub mod hex_text;
pub mod laws;
pub mod model;
pub mod protocol;
pub mod secret;
pub mod sharing;
pub mod values;

pub use cache::{SessionKeyCache, SessionKeyPair};
pub use errors::{BackendError, KmsAeadError, KmsAeadResult};
pub use protocol::{Action, Event, Operation, Outcome};
pub use values::{
    CipherText, DataEncryptionKey, EncryptedDataEncryptionKey, EncryptedSecretValue,
    EncryptedSessionKey,
};
