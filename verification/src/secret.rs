//! The secret buffer type that plaintexts and raw keys are held in.
use secret_vault_value::SecretValue;
use vstd::prelude::*;

verus! {

/// `secret_vault_value::SecretValue`: a byte buffer that is zeroized when it
/// is dropped. Nothing of its layout is visible here; what it holds is
/// spoken of through [`secret_bytes`].
#[verifier::external_type_specification]
#[verifier::external_body]
pub struct ExSecretValue(SecretValue);

/// The bytes that a secret value holds.
pub uninterp spec fn secret_bytes(value: SecretValue) -> Seq<u8>;

/// Calls `SecretValue::clone`, which allocates a second buffer with the same
/// bytes. Trusted: the copy holds exactly the bytes of the source.
#[verifier::external_body]
pub(crate) fn clone_secret(value: &SecretValue) -> (copy: SecretValue)
    ensures
        secret_bytes(copy) == secret_bytes(*value),
{
    value.clone()
}

} // verus!
