use kms_aead::{
    BackendError, CipherText, DataEncryptionKey, EncryptedDataEncryptionKey, EncryptedSecretValue,
    EncryptedSessionKey, KmsAeadError, KmsAeadResult,
};
use secret_vault_value::SecretValue;

#[test]
fn cipher_text_hex_is_lower_case_two_digits_per_byte() {
    assert_eq!(CipherText::new(vec![1, 2, 3, 15, 16]).to_hex_string(), "0102030f10");
    assert_eq!(CipherText::new(vec![0xff, 0x00, 0xab, 0x9c]).to_hex_string(), "ff00ab9c");
}

#[test]
fn cipher_text_hex_of_nothing_is_empty() {
    assert_eq!(CipherText::new(Vec::new()).to_hex_string(), "");
}

#[test]
fn cipher_text_hex_matches_the_text_of_a_known_string() {
    let cipher_text = CipherText::new("Hello world!".as_bytes().to_vec());
    assert_eq!(cipher_text.to_hex_string(), "48656c6c6f20776f726c6421");
}

#[test]
fn encrypted_key_hex_is_lower_case_two_digits_per_byte() {
    let wrapped = EncryptedDataEncryptionKey::new(vec![0xde, 0xad, 0xbe, 0xef, 0x07]);
    assert_eq!(wrapped.to_hex_string(), "deadbeef07");
    assert_eq!(EncryptedDataEncryptionKey::new(Vec::new()).to_hex_string(), "");
}

#[test]
fn hex_covers_every_digit() {
    let bytes: Vec<u8> = vec![0x01, 0x23, 0x45, 0x67, 0x89, 0xab, 0xcd, 0xef];
    assert_eq!(CipherText::new(bytes).to_hex_string(), "0123456789abcdef");
}

#[test]
fn hex_is_twice_as_long_as_the_bytes() {
    let bytes: Vec<u8> = (0u8..=255).collect();
    let text = EncryptedDataEncryptionKey::new(bytes).to_hex_string();
    assert_eq!(text.len(), 512);
    assert_eq!(&text[0..6], "000102");
    assert_eq!(&text[506..512], "fdfeff");
}

#[test]
fn value_structs_give_back_what_they_were_made_of() {
    let cipher_text = CipherText::new(vec![9, 8, 7]);
    assert_eq!(cipher_text.value(), &vec![9, 8, 7]);
    assert_eq!(cipher_text.into_value(), vec![9, 8, 7]);

    let wrapped = EncryptedDataEncryptionKey::new(vec![4, 5]);
    assert_eq!(wrapped.value(), &vec![4, 5]);
    assert_eq!(wrapped.into_value(), vec![4, 5]);

    let key = DataEncryptionKey::new(SecretValue::new(vec![1, 2, 3, 4]));
    assert_eq!(key.value().ref_sensitive_value(), &vec![1, 2, 3, 4]);
    assert_eq!(key.into_value().ref_sensitive_value(), &vec![1, 2, 3, 4]);
}

#[test]
fn clones_hold_the_same_bytes() {
    let cipher_text = CipherText::new(vec![1, 2, 3]);
    assert_eq!(cipher_text.clone(), cipher_text);
    assert_eq!(cipher_text.clone().0, vec![1, 2, 3]);

    let wrapped = EncryptedDataEncryptionKey::new(vec![7; 40]);
    assert_eq!(wrapped.clone(), wrapped);

    let key = DataEncryptionKey::new(SecretValue::from("key material"));
    let copy = key.clone();
    assert_eq!(copy.value().ref_sensitive_value(), &"key material".as_bytes().to_vec());
    assert_eq!(copy, key);
}

#[test]
fn value_structs_differ_when_their_bytes_differ() {
    assert_ne!(CipherText::new(vec![1, 2, 3]), CipherText::new(vec![1, 2, 4]));
    assert_ne!(
        EncryptedDataEncryptionKey::new(vec![1]),
        EncryptedDataEncryptionKey::new(vec![1, 0])
    );
    assert_ne!(
        DataEncryptionKey::new(SecretValue::from("a")),
        DataEncryptionKey::new(SecretValue::from("b"))
    );
}

#[test]
fn a_key_does_not_show_its_bytes_when_printed() {
    let key = DataEncryptionKey::new(SecretValue::from("hunter2"));
    assert!(!format!("{:?}", key).contains("hunter2"));
}

#[test]
fn backend_errors_keep_their_class() {
    assert_eq!(
        KmsAeadError::from_backend(BackendError::Unavailable),
        KmsAeadError::BackendUnavailable
    );
    assert_eq!(
        KmsAeadError::from_backend(BackendError::AccessDenied),
        KmsAeadError::AccessDenied
    );
    assert_eq!(
        KmsAeadError::from_backend(BackendError::InvalidKeyReference),
        KmsAeadError::InvalidKeyReference
    );
}

#[test]
fn only_an_unavailable_backend_is_worth_a_retry() {
    assert!(KmsAeadError::BackendUnavailable.is_retryable());
    assert!(!KmsAeadError::AccessDenied.is_retryable());
    assert!(!KmsAeadError::InvalidKeyReference.is_retryable());
    assert!(!KmsAeadError::EncryptionFailure.is_retryable());
    assert!(!KmsAeadError::AuthenticationFailure.is_retryable());
}

#[test]
fn value_structs_are_made_from_their_values() {
    let cipher_text = CipherText::from(vec![1, 2, 3]);
    assert_eq!(cipher_text.value(), &vec![1, 2, 3]);
    let bytes = vec![4, 5, 6];
    let cipher_text = CipherText::from(&bytes);
    assert_eq!(cipher_text.value(), &bytes);

    let wrapped: EncryptedDataEncryptionKey = vec![7, 8].into();
    assert_eq!(wrapped.value(), &vec![7, 8]);
    let wrapped = EncryptedDataEncryptionKey::from(&bytes);
    assert_eq!(wrapped.into_value(), vec![4, 5, 6]);

    let secret = SecretValue::from("raw key");
    let key = DataEncryptionKey::from(&secret);
    assert_eq!(key.value(), &secret);
    let key: DataEncryptionKey = secret.into();
    assert_eq!(key.value().ref_sensitive_value(), &b"raw key".to_vec());
}

#[test]
fn a_clone_of_a_key_outlives_the_key() {
    let copy = {
        let key = DataEncryptionKey::new(SecretValue::new(vec![0xaa; 32]));
        key.clone()
    };
    assert_eq!(copy.value().ref_sensitive_value(), &vec![0xaa; 32]);
}

#[test]
fn results_carry_the_error_of_the_operation() {
    let failed: KmsAeadResult<CipherText> = Err(KmsAeadError::AccessDenied);
    assert_eq!(failed, Err(KmsAeadError::AccessDenied));
    let sealed: KmsAeadResult<EncryptedSecretValue> = Ok(CipherText::new(vec![1]));
    assert_eq!(sealed.map(|cipher_text| cipher_text.to_hex_string()), Ok("01".to_string()));
    let wrapped: EncryptedSessionKey = EncryptedDataEncryptionKey::new(vec![0x0f]);
    assert_eq!(wrapped.to_hex_string(), "0f");
}
