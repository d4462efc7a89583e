//! The three kinds of bytes that pass through the protocol.
use crate::hex_text::{encode_hex, hex_string};
use crate::secret::{clone_secret, secret_bytes};
use secret_vault_value::SecretValue;
use vstd::prelude::*;
use vstd::std_specs::convert::FromSpecImpl;

verus! {

/// An authenticated ciphertext, with whatever nonce and tag the cipher needs
/// to open it again. Its layout belongs to the cipher.
#[derive(Debug, PartialEq, Eq)]
pub struct CipherText(pub Vec<u8>);

/// A session key in the clear. It lives in memory only.
#[derive(Debug, PartialEq, Eq)]
pub struct DataEncryptionKey(pub SecretValue);

/// A session key as wrapped by the master-key backend: the form in which it
/// is stored beside a ciphertext. Its layout belongs to the backend.
#[derive(Debug, PartialEq, Eq)]
pub struct EncryptedDataEncryptionKey(pub Vec<u8>);

/// A ciphertext, by the name that says what it holds.
pub type EncryptedSecretValue = CipherText;

/// A wrapped session key, by the name that says what it is for.
pub type EncryptedSessionKey = EncryptedDataEncryptionKey;

impl View for CipherText {
    type V = Seq<u8>;

    open spec fn view(&self) -> Seq<u8> {
        self.0@
    }
}

impl View for DataEncryptionKey {
    type V = Seq<u8>;

    open spec fn view(&self) -> Seq<u8> {
        secret_bytes(self.0)
    }
}

impl View for EncryptedDataEncryptionKey {
    type V = Seq<u8>;

    open spec fn view(&self) -> Seq<u8> {
        self.0@
    }
}

/// A copy of `bytes` in a buffer of its own.
pub(crate) fn copy_bytes(bytes: &Vec<u8>) -> (copy: Vec<u8>)
    ensures
        copy@ == bytes@,
{
    let copy = bytes.clone();
    assert(copy@ =~= bytes@);
    copy
}

impl CipherText {
    pub fn new(value: Vec<u8>) -> (result: Self)
        ensures
            result.0 == value,
    {
        CipherText(value)
    }

    pub fn value(&self) -> (bytes: &Vec<u8>)
        ensures
            *bytes == self.0,
    {
        &self.0
    }

    pub fn into_value(self) -> (bytes: Vec<u8>)
        ensures
            bytes == self.0,
    {
        self.0
    }

    /// The bytes as lower-case hexadecimal text.
    pub fn to_hex_string(&self) -> (text: String)
        ensures
            text@ == hex_string(self@),
    {
        encode_hex(&self.0)
    }

}

impl DataEncryptionKey {
    pub fn new(value: SecretValue) -> (result: Self)
        ensures
            result.0 == value,
    {
        DataEncryptionKey(value)
    }

    pub fn value(&self) -> (secret: &SecretValue)
        ensures
            *secret == self.0,
    {
        &self.0
    }

    pub fn into_value(self) -> (secret: SecretValue)
        ensures
            secret == self.0,
    {
        self.0
    }

}

impl EncryptedDataEncryptionKey {
    pub fn new(value: Vec<u8>) -> (result: Self)
        ensures
            result.0 == value,
    {
        EncryptedDataEncryptionKey(value)
    }

    pub fn value(&self) -> (bytes: &Vec<u8>)
        ensures
            *bytes == self.0,
    {
        &self.0
    }

    pub fn into_value(self) -> (bytes: Vec<u8>)
        ensures
            bytes == self.0,
    {
        self.0
    }

    /// The bytes as lower-case hexadecimal text.
    pub fn to_hex_string(&self) -> (text: String)
        ensures
            text@ == hex_string(self@),
    {
        encode_hex(&self.0)
    }

}

impl From<Vec<u8>> for CipherText {
    fn from(value: Vec<u8>) -> (result: Self) {
        CipherText(value)
    }
}

impl FromSpecImpl<Vec<u8>> for CipherText {
    open spec fn obeys_from_spec() -> bool {
        true
    }

    open spec fn from_spec(value: Vec<u8>) -> Self {
        CipherText(value)
    }
}

impl From<&Vec<u8>> for CipherText {
    /// A ciphertext with a copy of the bytes of `value`.
    fn from(value: &Vec<u8>) -> (result: Self)
        ensures
            result@ == CipherText(*value)@,
    {
        CipherText(copy_bytes(value))
    }
}

impl FromSpecImpl<&Vec<u8>> for CipherText {
    open spec fn obeys_from_spec() -> bool {
        false
    }

    open spec fn from_spec(value: &Vec<u8>) -> Self {
        CipherText(*value)
    }
}

impl From<SecretValue> for DataEncryptionKey {
    fn from(value: SecretValue) -> (result: Self) {
        DataEncryptionKey(value)
    }
}

impl FromSpecImpl<SecretValue> for DataEncryptionKey {
    open spec fn obeys_from_spec() -> bool {
        true
    }

    open spec fn from_spec(value: SecretValue) -> Self {
        DataEncryptionKey(value)
    }
}

impl From<&SecretValue> for DataEncryptionKey {
    /// A key with a copy of the bytes of `value`.
    fn from(value: &SecretValue) -> (result: Self)
        ensures
            result@ == DataEncryptionKey(*value)@,
    {
        DataEncryptionKey(clone_secret(value))
    }
}

impl FromSpecImpl<&SecretValue> for DataEncryptionKey {
    open spec fn obeys_from_spec() -> bool {
        false
    }

    open spec fn from_spec(value: &SecretValue) -> Self {
        DataEncryptionKey(*value)
    }
}

impl From<Vec<u8>> for EncryptedDataEncryptionKey {
    fn from(value: Vec<u8>) -> (result: Self) {
        EncryptedDataEncryptionKey(value)
    }
}

impl FromSpecImpl<Vec<u8>> for EncryptedDataEncryptionKey {
    open spec fn obeys_from_spec() -> bool {
        true
    }

    open spec fn from_spec(value: Vec<u8>) -> Self {
        EncryptedDataEncryptionKey(value)
    }
}

impl From<&Vec<u8>> for EncryptedDataEncryptionKey {
    /// A wrapped key with a copy of the bytes of `value`.
    fn from(value: &Vec<u8>) -> (result: Self)
        ensures
            result@ == EncryptedDataEncryptionKey(*value)@,
    {
        EncryptedDataEncryptionKey(copy_bytes(value))
    }
}

impl FromSpecImpl<&Vec<u8>> for EncryptedDataEncryptionKey {
    open spec fn obeys_from_spec() -> bool {
        false
    }

    open spec fn from_spec(value: &Vec<u8>) -> Self {
        EncryptedDataEncryptionKey(*value)
    }
}

impl Clone for CipherText {
    /// A second ciphertext with the same bytes.
    fn clone(&self) -> (copy: Self)
        ensures
            copy@ == self@,
    {
        CipherText(copy_bytes(&self.0))
    }
}

impl Clone for DataEncryptionKey {
    /// A second key with the same bytes, in a buffer that is zeroized on its
    /// own.
    fn clone(&self) -> (copy: Self)
        ensures
            copy@ == self@,
    {
        DataEncryptionKey(clone_secret(&self.0))
    }
}

impl Clone for EncryptedDataEncryptionKey {
    /// A second reference with the same bytes.
    fn clone(&self) -> (copy: Self)
        ensures
            copy@ == self@,
    {
        EncryptedDataEncryptionKey(copy_bytes(&self.0))
    }
}

} // verus!
