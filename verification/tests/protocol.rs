use kms_aead::{
    Action, BackendError, CipherText, DataEncryptionKey, EncryptedDataEncryptionKey, Event,
    KmsAeadError, Operation, Outcome, SessionKeyCache,
};
use secret_vault_value::SecretValue;

/// A cipher and a backend for the tests. Neither is secure; both keep what a
/// real one promises: what was sealed opens again under the same key and
/// associated data and under nothing else, and what was wrapped unwraps
/// again.
struct World {
    generated: u8,
    wraps: usize,
    unwraps: usize,
    seals: u8,
    generate_fails: Option<BackendError>,
    wrap_fails: Option<BackendError>,
    unwrap_fails: Option<BackendError>,
    seal_fails: bool,
}

fn world() -> World {
    World {
        generated: 0,
        wraps: 0,
        unwraps: 0,
        seals: 0,
        generate_fails: None,
        wrap_fails: None,
        unwrap_fails: None,
        seal_fails: false,
    }
}

fn tag(key: &[u8], aad: &[u8], nonce: u8, plain_text: &[u8]) -> [u8; 8] {
    let mut hash: u64 = 0xcbf29ce484222325;
    let mut feed = |bytes: &[u8], hash: &mut u64| {
        for byte in bytes {
            *hash ^= u64::from(*byte);
            *hash = hash.wrapping_mul(0x100000001b3);
        }
        *hash ^= 0xff;
        *hash = hash.wrapping_mul(0x100000001b3);
    };
    feed(key, &mut hash);
    feed(aad, &mut hash);
    feed(&[nonce], &mut hash);
    feed(plain_text, &mut hash);
    hash.to_be_bytes()
}

fn mask(key: &[u8], nonce: u8, bytes: &[u8]) -> Vec<u8> {
    bytes
        .iter()
        .enumerate()
        .map(|(i, byte)| byte ^ key[i % key.len()] ^ nonce ^ (i as u8))
        .collect()
}

fn seal(key: &[u8], aad: &[u8], nonce: u8, plain_text: &[u8]) -> Vec<u8> {
    let mut cipher_text = vec![nonce];
    cipher_text.extend_from_slice(&tag(key, aad, nonce, plain_text));
    cipher_text.extend(mask(key, nonce, plain_text));
    cipher_text
}

fn open(key: &[u8], aad: &[u8], cipher_text: &[u8]) -> Option<Vec<u8>> {
    if key.is_empty() || cipher_text.len() < 9 {
        return None;
    }
    let nonce = cipher_text[0];
    let plain_text = mask(key, nonce, &cipher_text[9..]);
    if tag(key, aad, nonce, &plain_text)[..] == cipher_text[1..9] {
        Some(plain_text)
    } else {
        None
    }
}

fn wrap(key: &[u8]) -> Vec<u8> {
    let mut wrapped = vec![0xa5];
    wrapped.extend(key.iter().rev().map(|byte| byte ^ 0x3c));
    wrapped
}

fn unwrap(wrapped: &[u8]) -> Result<Vec<u8>, BackendError> {
    if wrapped.len() < 2 || wrapped[0] != 0xa5 {
        return Err(BackendError::InvalidKeyReference);
    }
    Ok(wrapped[1..].iter().rev().map(|byte| byte ^ 0x3c).collect())
}

fn key_number(n: u8) -> Vec<u8> {
    (0u8..32).map(|i| i.wrapping_mul(7).wrapping_add(n.wrapping_mul(31)).wrapping_add(1)).collect()
}

fn answer(world: &mut World, action: Action) -> Event {
    match action {
        Action::GenerateKey => Event::KeyGenerated(match world.generate_fails {
            Some(error) => Err(error),
            None => {
                world.generated += 1;
                Ok(DataEncryptionKey::new(SecretValue::new(key_number(world.generated))))
            }
        }),
        Action::Wrap { key } => {
            world.wraps += 1;
            Event::Wrapped(match world.wrap_fails {
                Some(error) => Err(error),
                None => Ok(EncryptedDataEncryptionKey::new(wrap(
                    key.value().ref_sensitive_value(),
                ))),
            })
        }
        Action::Unwrap { wrapped } => {
            world.unwraps += 1;
            Event::Unwrapped(match world.unwrap_fails {
                Some(error) => Err(error),
                None => unwrap(wrapped.value())
                    .map(|key| DataEncryptionKey::new(SecretValue::new(key))),
            })
        }
        Action::Encrypt { aad, plain_text, key } => {
            let key = key.value().ref_sensitive_value();
            if world.seal_fails || key.is_empty() {
                Event::Encrypted(None)
            } else {
                world.seals += 1;
                Event::Encrypted(Some(CipherText::new(seal(
                    key,
                    &aad,
                    world.seals,
                    plain_text.ref_sensitive_value(),
                ))))
            }
        }
        Action::Decrypt { aad, cipher_text, key } => Event::Decrypted(
            open(key.value().ref_sensitive_value(), &aad, cipher_text.value())
                .map(SecretValue::new),
        ),
        Action::Wait => panic!("there is nothing to answer"),
        Action::Done(_) => panic!("the operation has ended"),
    }
}

fn drive(
    operation: Operation,
    cache: &mut SessionKeyCache,
    world: &mut World,
) -> Result<Outcome, KmsAeadError> {
    let mut operation = operation;
    let mut event = Event::Resume;
    loop {
        let (next, action) = operation.step(cache, event);
        operation = next;
        match action {
            Action::Done(result) => {
                assert!(operation.is_finished());
                return result;
            }
            Action::Wait => panic!("nothing else holds the cache in this test"),
            action => event = answer(world, action),
        }
    }
}

fn sealed(result: Result<Outcome, KmsAeadError>) -> (CipherText, EncryptedDataEncryptionKey) {
    match result {
        Ok(Outcome::Sealed { cipher_text, session_key }) => (cipher_text, session_key),
        other => panic!("expected a ciphertext and a wrapped key, got {:?}", other),
    }
}

fn plain(result: Result<Outcome, KmsAeadError>) -> Vec<u8> {
    match result {
        Ok(Outcome::PlainText(plain_text)) => plain_text.ref_sensitive_value().clone(),
        other => panic!("expected a value, got {:?}", other),
    }
}

fn failure(result: Result<Outcome, KmsAeadError>) -> KmsAeadError {
    match result {
        Err(error) => error,
        Ok(outcome) => panic!("expected a failure, got {:?}", outcome),
    }
}

fn rotated(
    result: Result<Outcome, KmsAeadError>,
) -> (EncryptedDataEncryptionKey, EncryptedDataEncryptionKey) {
    match result {
        Ok(Outcome::Rotated { previous, current }) => (previous, current),
        other => panic!("expected two wrapped keys, got {:?}", other),
    }
}

#[test]
fn the_toy_cipher_authenticates() {
    let cipher_text = seal(&[1, 2, 3], b"aad", 7, b"value");
    assert_eq!(open(&[1, 2, 3], b"aad", &cipher_text), Some(b"value".to_vec()));
    assert_eq!(open(&[1, 2, 4], b"aad", &cipher_text), None);
    assert_eq!(open(&[1, 2, 3], b"aae", &cipher_text), None);
    assert_eq!(unwrap(&wrap(&[9, 8, 7])), Ok(vec![9, 8, 7]));
}

#[test]
fn encrypt_value_then_decrypt_value_gives_the_value_back() {
    let mut world = world();
    let mut cache = SessionKeyCache::new();
    let key = SecretValue::from("a key of the caller's own");
    let value = SecretValue::from("some secret");

    let result = drive(Operation::encrypt_value(b"record-17", &value, &key), &mut cache, &mut world);
    let cipher_text = match result {
        Ok(Outcome::CipherText(cipher_text)) => cipher_text,
        other => panic!("expected a ciphertext, got {:?}", other),
    };
    assert_ne!(cipher_text.value()[9..], b"some secret"[..]);

    let result = drive(
        Operation::decrypt_value(b"record-17", &cipher_text, &key),
        &mut cache,
        &mut world,
    );
    assert_eq!(plain(result), b"some secret".to_vec());
    assert!(cache.current().is_none());
    assert_eq!(world.wraps, 0);
    assert_eq!(world.unwraps, 0);
}

#[test]
fn round_trip_holds_for_an_empty_value_and_empty_associated_data() {
    let mut world = world();
    let mut cache = SessionKeyCache::new();
    let key = SecretValue::new(vec![0x42; 32]);
    let value = SecretValue::new(Vec::new());

    let result = drive(Operation::encrypt_value(b"", &value, &key), &mut cache, &mut world);
    let cipher_text = match result {
        Ok(Outcome::CipherText(cipher_text)) => cipher_text,
        other => panic!("expected a ciphertext, got {:?}", other),
    };
    let result = drive(Operation::decrypt_value(b"", &cipher_text, &key), &mut cache, &mut world);
    assert_eq!(plain(result), Vec::<u8>::new());
}

#[test]
fn encrypt_value_hands_the_cipher_what_it_was_given() {
    let mut cache = SessionKeyCache::new();
    let key = SecretValue::new(vec![5; 16]);
    let value = SecretValue::from("payload");
    let (operation, action) =
        Operation::encrypt_value(b"context", &value, &key).step(&mut cache, Event::Resume);
    match action {
        Action::Encrypt { aad, plain_text, key } => {
            assert_eq!(aad, b"context".to_vec());
            assert_eq!(plain_text.ref_sensitive_value(), &b"payload".to_vec());
            assert_eq!(key.value().ref_sensitive_value(), &vec![5; 16]);
        }
        other => panic!("expected a request to seal, got {:?}", other),
    }
    assert!(!operation.is_finished());
    let (operation, action) =
        operation.step(&mut cache, Event::Encrypted(Some(CipherText::new(vec![1, 2, 3]))));
    match action {
        Action::Done(Ok(Outcome::CipherText(cipher_text))) => {
            assert_eq!(cipher_text, CipherText::new(vec![1, 2, 3]))
        }
        other => panic!("expected the ciphertext, got {:?}", other),
    }
    assert!(operation.is_finished());
}

#[test]
fn decrypt_value_hands_the_cipher_what_it_was_given() {
    let mut cache = SessionKeyCache::new();
    let key = SecretValue::new(vec![6; 16]);
    let cipher_text = CipherText::new(vec![10, 20, 30]);
    let (operation, action) =
        Operation::decrypt_value(b"context", &cipher_text, &key).step(&mut cache, Event::Resume);
    match action {
        Action::Decrypt { aad, cipher_text, key } => {
            assert_eq!(aad, b"context".to_vec());
            assert_eq!(cipher_text.value(), &vec![10, 20, 30]);
            assert_eq!(key.value().ref_sensitive_value(), &vec![6; 16]);
        }
        other => panic!("expected a request to open, got {:?}", other),
    }
    let (_, action) =
        operation.step(&mut cache, Event::Decrypted(Some(SecretValue::from("value"))));
    match action {
        Action::Done(Ok(Outcome::PlainText(plain_text))) => {
            assert_eq!(plain_text.ref_sensitive_value(), &b"value".to_vec())
        }
        other => panic!("expected the value, got {:?}", other),
    }
}

#[test]
fn decrypt_value_with_other_associated_data_fails_to_authenticate() {
    let mut world = world();
    let mut cache = SessionKeyCache::new();
    let key = SecretValue::new(vec![9; 32]);
    let result = drive(
        Operation::encrypt_value(b"aad-one", &SecretValue::from("v"), &key),
        &mut cache,
        &mut world,
    );
    let cipher_text = match result {
        Ok(Outcome::CipherText(cipher_text)) => cipher_text,
        other => panic!("expected a ciphertext, got {:?}", other),
    };
    let result =
        drive(Operation::decrypt_value(b"aad-two", &cipher_text, &key), &mut cache, &mut world);
    assert_eq!(failure(result), KmsAeadError::AuthenticationFailure);
}

#[test]
fn decrypt_value_with_another_key_fails_to_authenticate() {
    let mut world = world();
    let mut cache = SessionKeyCache::new();
    let key = SecretValue::new(vec![9; 32]);
    let other_key = SecretValue::new(vec![8; 32]);
    let result = drive(
        Operation::encrypt_value(b"aad", &SecretValue::from("v"), &key),
        &mut cache,
        &mut world,
    );
    let cipher_text = match result {
        Ok(Outcome::CipherText(cipher_text)) => cipher_text,
        other => panic!("expected a ciphertext, got {:?}", other),
    };
    let result =
        drive(Operation::decrypt_value(b"aad", &cipher_text, &other_key), &mut cache, &mut world);
    assert_eq!(failure(result), KmsAeadError::AuthenticationFailure);
}

#[test]
fn decrypt_value_of_a_ciphertext_with_one_bit_flipped_fails_to_authenticate() {
    let mut world = world();
    let mut cache = SessionKeyCache::new();
    let key = SecretValue::new(vec![9; 32]);
    let result = drive(
        Operation::encrypt_value(b"aad", &SecretValue::from("a longer value"), &key),
        &mut cache,
        &mut world,
    );
    let cipher_text = match result {
        Ok(Outcome::CipherText(cipher_text)) => cipher_text,
        other => panic!("expected a ciphertext, got {:?}", other),
    };
    for position in 0..cipher_text.value().len() {
        let mut bytes = cipher_text.value().clone();
        bytes[position] ^= 0x10;
        let result = drive(
            Operation::decrypt_value(b"aad", &CipherText::new(bytes), &key),
            &mut cache,
            &mut world,
        );
        assert_eq!(failure(result), KmsAeadError::AuthenticationFailure);
    }
}

#[test]
fn encrypt_value_fails_with_encryption_failure_when_the_cipher_cannot_seal() {
    let mut world = world();
    world.seal_fails = true;
    let mut cache = SessionKeyCache::new();
    let key = SecretValue::new(vec![1; 32]);
    let result = drive(
        Operation::encrypt_value(b"aad", &SecretValue::from("v"), &key),
        &mut cache,
        &mut world,
    );
    assert_eq!(failure(result), KmsAeadError::EncryptionFailure);
}

#[test]
fn scenario_current_key_then_decrypt_with_key() {
    let mut world = world();
    let mut cache = SessionKeyCache::new();
    let secret_value = SecretValue::from("test-secret");
    let test_aad = "test-aad".to_string();

    let (encrypted_value, session_key) = sealed(drive(
        Operation::encrypt_value_with_current_key(test_aad.as_bytes(), &secret_value),
        &mut cache,
        &mut world,
    ));
    let result = drive(
        Operation::decrypt_value_with_key(test_aad.as_bytes(), &encrypted_value, &session_key),
        &mut cache,
        &mut world,
    );
    match result {
        Ok(Outcome::PlainText(value)) => {
            assert_eq!(value.sensitive_value_to_str().unwrap(), "test-secret")
        }
        other => panic!("expected the value, got {:?}", other),
    }
}

#[test]
fn scenario_pre_rotation_ciphertext_does_not_open_with_the_new_key() {
    let mut world = world();
    let mut cache = SessionKeyCache::new();
    let (cipher_text, _) = sealed(drive(
        Operation::encrypt_value_with_current_key(b"aad", &SecretValue::from("before")),
        &mut cache,
        &mut world,
    ));
    let (_, current) = rotated(drive(Operation::rotate_session_key(), &mut cache, &mut world));
    let result = drive(
        Operation::decrypt_value_with_key(b"aad", &cipher_text, &current),
        &mut cache,
        &mut world,
    );
    assert_eq!(failure(result), KmsAeadError::AuthenticationFailure);
}

#[test]
fn first_use_of_the_current_key_generates_and_wraps_it() {
    let mut world = world();
    let mut cache = SessionKeyCache::new();
    assert!(cache.current().is_none());
    assert!(cache.current_session_key().is_none());

    let (_, session_key) = sealed(drive(
        Operation::encrypt_value_with_current_key(b"aad", &SecretValue::from("v")),
        &mut cache,
        &mut world,
    ));
    assert_eq!(world.generated, 1);
    assert_eq!(world.wraps, 1);
    assert_eq!(session_key.value(), &wrap(&key_number(1)));
    let pair = cache.current().unwrap();
    assert_eq!(pair.key.value().ref_sensitive_value(), &key_number(1));
    assert_eq!(pair.wrapped, session_key);
    assert_eq!(cache.current_session_key(), Some(session_key));
    assert!(!cache.is_busy());
}

#[test]
fn first_use_of_the_current_key_asks_in_order() {
    let mut cache = SessionKeyCache::new();
    let operation = Operation::encrypt_value_with_current_key(b"aad", &SecretValue::from("v"));

    let (operation, action) = operation.step(&mut cache, Event::Resume);
    assert!(matches!(action, Action::GenerateKey));
    assert!(cache.is_busy());
    assert!(cache.current().is_none());

    let key = DataEncryptionKey::new(SecretValue::new(vec![3; 32]));
    let (operation, action) = operation.step(&mut cache, Event::KeyGenerated(Ok(key)));
    match action {
        Action::Wrap { key } => assert_eq!(key.value().ref_sensitive_value(), &vec![3; 32]),
        other => panic!("expected a request to wrap, got {:?}", other),
    }
    assert!(cache.is_busy());
    assert!(cache.current().is_none());

    let wrapped = EncryptedDataEncryptionKey::new(vec![0xee; 40]);
    let (operation, action) = operation.step(&mut cache, Event::Wrapped(Ok(wrapped)));
    match action {
        Action::Encrypt { aad, plain_text, key } => {
            assert_eq!(aad, b"aad".to_vec());
            assert_eq!(plain_text.ref_sensitive_value(), &b"v".to_vec());
            assert_eq!(key.value().ref_sensitive_value(), &vec![3; 32]);
        }
        other => panic!("expected a request to seal, got {:?}", other),
    }
    assert!(!cache.is_busy());
    let pair = cache.current().unwrap();
    assert_eq!(pair.key.value().ref_sensitive_value(), &vec![3; 32]);
    assert_eq!(pair.wrapped.value(), &vec![0xee; 40]);

    let (operation, action) =
        operation.step(&mut cache, Event::Encrypted(Some(CipherText::new(vec![1, 1, 2]))));
    match action {
        Action::Done(Ok(Outcome::Sealed { cipher_text, session_key })) => {
            assert_eq!(cipher_text.value(), &vec![1, 1, 2]);
            assert_eq!(session_key.value(), &vec![0xee; 40]);
        }
        other => panic!("expected the ciphertext and the wrapped key, got {:?}", other),
    }
    assert!(operation.is_finished());
}

#[test]
fn two_calls_with_the_current_key_report_the_same_wrapped_key() {
    let mut world = world();
    let mut cache = SessionKeyCache::new();
    let (first_cipher_text, first) = sealed(drive(
        Operation::encrypt_value_with_current_key(b"aad", &SecretValue::from("one")),
        &mut cache,
        &mut world,
    ));
    let (second_cipher_text, second) = sealed(drive(
        Operation::encrypt_value_with_current_key(b"aad", &SecretValue::from("two")),
        &mut cache,
        &mut world,
    ));
    assert_eq!(first, second);
    assert_ne!(first_cipher_text, second_cipher_text);
    assert_eq!(world.generated, 1);
    assert_eq!(world.wraps, 1);
}

#[test]
fn rotation_keeps_old_ciphertexts_readable_and_moves_new_ones_to_the_new_key() {
    let mut world = world();
    let mut cache = SessionKeyCache::new();
    let (cipher_text, session_key) = sealed(drive(
        Operation::encrypt_value_with_current_key(b"aad", &SecretValue::from("before")),
        &mut cache,
        &mut world,
    ));

    let (previous, current) =
        rotated(drive(Operation::rotate_session_key(), &mut cache, &mut world));
    assert_eq!(previous, session_key);
    assert_ne!(current, previous);
    assert_eq!(previous.value(), &wrap(&key_number(1)));
    assert_eq!(current.value(), &wrap(&key_number(2)));
    assert_eq!(cache.current_session_key(), Some(current.clone()));
    assert_eq!(cache.current().unwrap().key.value().ref_sensitive_value(), &key_number(2));
    assert!(!cache.is_busy());

    let result = drive(
        Operation::decrypt_value_with_key(b"aad", &cipher_text, &previous),
        &mut cache,
        &mut world,
    );
    assert_eq!(plain(result), b"before".to_vec());

    let (_, next) = sealed(drive(
        Operation::encrypt_value_with_current_key(b"aad", &SecretValue::from("after")),
        &mut cache,
        &mut world,
    ));
    assert_eq!(next, current);
}

#[test]
fn the_cache_rotates_as_the_orchestrator_does() {
    let mut world = world();
    let mut cache = SessionKeyCache::new();
    let first = sealed(drive(
        Operation::encrypt_value_with_current_key(b"aad", &SecretValue::from("v")),
        &mut cache,
        &mut world,
    ))
    .1;
    let (previous, current) = rotated(drive(SessionKeyCache::rotate(), &mut cache, &mut world));
    assert_eq!(previous, first);
    assert_eq!(cache.current_session_key(), Some(current));
}

#[test]
fn rotation_of_an_empty_cache_creates_a_key_and_replaces_it() {
    let mut world = world();
    let mut cache = SessionKeyCache::new();
    let (previous, current) = rotated(drive(SessionKeyCache::rotate(), &mut cache, &mut world));
    assert_eq!(previous.value(), &wrap(&key_number(1)));
    assert_eq!(current.value(), &wrap(&key_number(2)));
    assert_eq!(world.wraps, 2);
    assert_eq!(cache.current_session_key(), Some(current));
    assert!(!cache.is_busy());
}

#[test]
fn a_rotation_that_fails_leaves_the_previous_key_in_place() {
    let mut world = world();
    let mut cache = SessionKeyCache::new();
    let (cipher_text, session_key) = sealed(drive(
        Operation::encrypt_value_with_current_key(b"aad", &SecretValue::from("kept")),
        &mut cache,
        &mut world,
    ));

    world.wrap_fails = Some(BackendError::Unavailable);
    let result = drive(Operation::rotate_session_key(), &mut cache, &mut world);
    assert_eq!(failure(result), KmsAeadError::BackendUnavailable);
    assert!(!cache.is_busy());
    assert_eq!(cache.current_session_key(), Some(session_key.clone()));

    world.wrap_fails = None;
    world.generate_fails = Some(BackendError::AccessDenied);
    let result = drive(Operation::rotate_session_key(), &mut cache, &mut world);
    assert_eq!(failure(result), KmsAeadError::AccessDenied);
    assert!(!cache.is_busy());
    assert_eq!(cache.current_session_key(), Some(session_key.clone()));

    world.generate_fails = None;
    let (_, again) = sealed(drive(
        Operation::encrypt_value_with_current_key(b"aad", &SecretValue::from("more")),
        &mut cache,
        &mut world,
    ));
    assert_eq!(again, session_key);
    let result = drive(
        Operation::decrypt_value_with_current_key(b"aad", &cipher_text),
        &mut cache,
        &mut world,
    );
    match result {
        Ok(Outcome::Opened { plain_text, session_key: used }) => {
            assert_eq!(plain_text.ref_sensitive_value(), &b"kept".to_vec());
            assert_eq!(used, session_key);
        }
        other => panic!("expected the value and the wrapped key, got {:?}", other),
    }
}

#[test]
fn a_first_key_that_cannot_be_wrapped_leaves_the_cache_empty_and_free() {
    let mut world = world();
    world.wrap_fails = Some(BackendError::AccessDenied);
    let mut cache = SessionKeyCache::new();
    let result = drive(
        Operation::encrypt_value_with_current_key(b"aad", &SecretValue::from("v")),
        &mut cache,
        &mut world,
    );
    assert_eq!(failure(result), KmsAeadError::AccessDenied);
    assert!(cache.current().is_none());
    assert!(!cache.is_busy());

    world.wrap_fails = None;
    let result = drive(SessionKeyCache::get_or_create_current(), &mut cache, &mut world);
    assert!(matches!(result, Ok(Outcome::CurrentKey(_))));
    assert_eq!(world.wraps, 2);
}

#[test]
fn a_first_key_that_cannot_be_generated_leaves_the_cache_empty_and_free() {
    let mut world = world();
    world.generate_fails = Some(BackendError::Unavailable);
    let mut cache = SessionKeyCache::new();
    let result = drive(SessionKeyCache::get_or_create_current(), &mut cache, &mut world);
    assert_eq!(failure(result), KmsAeadError::BackendUnavailable);
    assert!(cache.current().is_none());
    assert!(!cache.is_busy());
    assert_eq!(world.wraps, 0);
}

#[test]
fn one_off_keys_differ_and_leave_the_cache_alone() {
    let mut world = world();
    let mut cache = SessionKeyCache::new();
    let value = SecretValue::from("same value");
    let (first_cipher_text, first) = sealed(drive(
        Operation::encrypt_value_with_new_session_key(b"same aad", &value),
        &mut cache,
        &mut world,
    ));
    let (second_cipher_text, second) = sealed(drive(
        Operation::encrypt_value_with_new_session_key(b"same aad", &value),
        &mut cache,
        &mut world,
    ));
    assert_ne!(first, second);
    assert_eq!(first.value(), &wrap(&key_number(1)));
    assert_eq!(second.value(), &wrap(&key_number(2)));
    assert!(cache.current().is_none());
    assert!(!cache.is_busy());

    for (cipher_text, session_key) in [(first_cipher_text, first), (second_cipher_text, second)] {
        let result = drive(
            Operation::decrypt_value_with_key(b"same aad", &cipher_text, &session_key),
            &mut cache,
            &mut world,
        );
        assert_eq!(plain(result), b"same value".to_vec());
    }
}

#[test]
fn a_one_off_key_does_not_replace_the_current_key() {
    let mut world = world();
    let mut cache = SessionKeyCache::new();
    let (_, current) = sealed(drive(
        Operation::encrypt_value_with_current_key(b"aad", &SecretValue::from("v")),
        &mut cache,
        &mut world,
    ));
    let (_, one_off) = sealed(drive(
        Operation::encrypt_value_with_new_session_key(b"aad", &SecretValue::from("v")),
        &mut cache,
        &mut world,
    ));
    assert_ne!(one_off, current);
    assert_eq!(cache.current_session_key(), Some(current));
}

#[test]
fn a_one_off_key_that_cannot_be_wrapped_fails_the_call() {
    let mut world = world();
    world.wrap_fails = Some(BackendError::Unavailable);
    let mut cache = SessionKeyCache::new();
    let result = drive(
        Operation::encrypt_value_with_new_session_key(b"aad", &SecretValue::from("v")),
        &mut cache,
        &mut world,
    );
    assert_eq!(failure(result), KmsAeadError::BackendUnavailable);
    assert!(cache.current().is_none());
    assert!(!cache.is_busy());
}

#[test]
fn decrypt_value_with_key_passes_the_backends_errors_on() {
    let mut cache = SessionKeyCache::new();
    let cipher_text = CipherText::new(vec![0; 12]);
    let wrapped = EncryptedDataEncryptionKey::new(wrap(&key_number(1)));
    for (error, expected) in [
        (BackendError::Unavailable, KmsAeadError::BackendUnavailable),
        (BackendError::AccessDenied, KmsAeadError::AccessDenied),
        (BackendError::InvalidKeyReference, KmsAeadError::InvalidKeyReference),
    ] {
        let mut world = world();
        world.unwrap_fails = Some(error);
        let result = drive(
            Operation::decrypt_value_with_key(b"aad", &cipher_text, &wrapped),
            &mut cache,
            &mut world,
        );
        assert_eq!(failure(result), expected);
        assert_eq!(world.unwraps, 1);
    }
}

#[test]
fn decrypt_value_with_key_rejects_a_reference_the_backend_does_not_know() {
    let mut world = world();
    let mut cache = SessionKeyCache::new();
    let result = drive(
        Operation::decrypt_value_with_key(
            b"aad",
            &CipherText::new(vec![0; 12]),
            &EncryptedDataEncryptionKey::new(vec![1, 2, 3]),
        ),
        &mut cache,
        &mut world,
    );
    assert_eq!(failure(result), KmsAeadError::InvalidKeyReference);
}

#[test]
fn decrypt_value_with_key_unwraps_the_reference_it_was_given() {
    let mut cache = SessionKeyCache::new();
    let wrapped = EncryptedDataEncryptionKey::new(vec![4, 4, 4]);
    let operation =
        Operation::decrypt_value_with_key(b"aad", &CipherText::new(vec![7, 7]), &wrapped);
    let (operation, action) = operation.step(&mut cache, Event::Resume);
    match action {
        Action::Unwrap { wrapped } => assert_eq!(wrapped.value(), &vec![4, 4, 4]),
        other => panic!("expected a request to unwrap, got {:?}", other),
    }
    let key = DataEncryptionKey::new(SecretValue::new(vec![8; 32]));
    let (_, action) = operation.step(&mut cache, Event::Unwrapped(Ok(key)));
    match action {
        Action::Decrypt { aad, cipher_text, key } => {
            assert_eq!(aad, b"aad".to_vec());
            assert_eq!(cipher_text.value(), &vec![7, 7]);
            assert_eq!(key.value().ref_sensitive_value(), &vec![8; 32]);
        }
        other => panic!("expected a request to open, got {:?}", other),
    }
    assert!(cache.current().is_none());
    assert!(!cache.is_busy());
}

#[test]
fn decrypt_value_with_current_key_reports_the_key_it_used() {
    let mut world = world();
    let mut cache = SessionKeyCache::new();
    let (cipher_text, session_key) = sealed(drive(
        Operation::encrypt_value_with_current_key(b"aad", &SecretValue::from("value")),
        &mut cache,
        &mut world,
    ));
    let result = drive(
        Operation::decrypt_value_with_current_key(b"aad", &cipher_text),
        &mut cache,
        &mut world,
    );
    match result {
        Ok(Outcome::Opened { plain_text, session_key: used }) => {
            assert_eq!(plain_text.ref_sensitive_value(), &b"value".to_vec());
            assert_eq!(used, session_key);
        }
        other => panic!("expected the value and the wrapped key, got {:?}", other),
    }
    assert_eq!(world.unwraps, 1);
}

#[test]
fn decrypt_value_with_current_key_fails_after_rotation() {
    let mut world = world();
    let mut cache = SessionKeyCache::new();
    let (cipher_text, _) = sealed(drive(
        Operation::encrypt_value_with_current_key(b"aad", &SecretValue::from("value")),
        &mut cache,
        &mut world,
    ));
    rotated(drive(Operation::rotate_session_key(), &mut cache, &mut world));
    let result = drive(
        Operation::decrypt_value_with_current_key(b"aad", &cipher_text),
        &mut cache,
        &mut world,
    );
    assert_eq!(failure(result), KmsAeadError::AuthenticationFailure);
}

#[test]
fn get_or_create_current_gives_the_same_pair_until_rotation() {
    let mut world = world();
    let mut cache = SessionKeyCache::new();
    let first = match drive(SessionKeyCache::get_or_create_current(), &mut cache, &mut world) {
        Ok(Outcome::CurrentKey(pair)) => pair,
        other => panic!("expected a pair, got {:?}", other),
    };
    let second = match drive(SessionKeyCache::get_or_create_current(), &mut cache, &mut world) {
        Ok(Outcome::CurrentKey(pair)) => pair,
        other => panic!("expected a pair, got {:?}", other),
    };
    assert_eq!(first.key, second.key);
    assert_eq!(first.wrapped, second.wrapped);
    assert_eq!(first.wrapped.value(), &wrap(first.key.value().ref_sensitive_value()));
    assert_eq!(world.wraps, 1);
}

#[test]
fn concurrent_first_access_wraps_one_key_and_serves_it_to_all() {
    let mut world = world();
    let mut cache = SessionKeyCache::new();
    let mut operations: Vec<Option<Operation>> =
        (0..5).map(|_| Some(SessionKeyCache::get_or_create_current())).collect();
    let mut pairs = Vec::new();

    // Caller 2 is first and becomes the one that creates the key.
    let (creator, action) = operations[2].take().unwrap().step(&mut cache, Event::Resume);
    assert!(matches!(action, Action::GenerateKey));
    let key_event = answer(&mut world, action);

    // The others arrive while the key is generated and wrapped: each waits.
    for caller in [0, 1, 3, 4] {
        let (next, action) = operations[caller].take().unwrap().step(&mut cache, Event::Resume);
        assert!(matches!(action, Action::Wait));
        operations[caller] = Some(next);
    }
    let (creator, action) = creator.step(&mut cache, key_event);
    assert!(matches!(action, Action::Wrap { .. }));
    let wrapped_event = answer(&mut world, action);
    for caller in [4, 0] {
        let (next, action) = operations[caller].take().unwrap().step(&mut cache, Event::Resume);
        assert!(matches!(action, Action::Wait));
        operations[caller] = Some(next);
    }
    let (_, action) = creator.step(&mut cache, wrapped_event);
    match action {
        Action::Done(Ok(Outcome::CurrentKey(pair))) => pairs.push(pair),
        other => panic!("expected a pair, got {:?}", other),
    }

    // Now the key is there, and each of the others is given it.
    for caller in [3, 1, 0, 4] {
        let (_, action) = operations[caller].take().unwrap().step(&mut cache, Event::Resume);
        match action {
            Action::Done(Ok(Outcome::CurrentKey(pair))) => pairs.push(pair),
            other => panic!("expected a pair, got {:?}", other),
        }
    }
    assert_eq!(pairs.len(), 5);
    for pair in &pairs {
        assert_eq!(pair.key, pairs[0].key);
        assert_eq!(pair.wrapped, pairs[0].wrapped);
    }
    assert_eq!(world.wraps, 1);
    assert_eq!(world.generated, 1);
}

#[test]
fn a_rotation_waits_for_the_first_key_and_the_first_key_for_a_rotation() {
    let mut world = world();
    let mut cache = SessionKeyCache::new();

    let (creator, action) =
        SessionKeyCache::get_or_create_current().step(&mut cache, Event::Resume);
    let key_event = answer(&mut world, action);
    let (rotation, action) = SessionKeyCache::rotate().step(&mut cache, Event::Resume);
    assert!(matches!(action, Action::Wait));
    let (creator, action) = creator.step(&mut cache, key_event);
    let wrapped_event = answer(&mut world, action);
    let (_, action) = creator.step(&mut cache, wrapped_event);
    assert!(matches!(action, Action::Done(Ok(Outcome::CurrentKey(_)))));

    let (rotation, action) = rotation.step(&mut cache, Event::Resume);
    assert!(matches!(action, Action::GenerateKey));
    assert!(cache.is_busy());
    let (second_rotation, action) = SessionKeyCache::rotate().step(&mut cache, Event::Resume);
    assert!(matches!(action, Action::Wait));
    assert!(!second_rotation.is_finished());

    let key_event = answer(&mut world, Action::GenerateKey);
    let (rotation, action) = rotation.step(&mut cache, key_event);
    let wrapped_event = answer(&mut world, action);
    let (_, action) = rotation.step(&mut cache, wrapped_event);
    let (previous, current) = match action {
        Action::Done(result) => rotated(result),
        other => panic!("expected the end of the rotation, got {:?}", other),
    };
    assert_eq!(previous.value(), &wrap(&key_number(1)));
    assert_eq!(current.value(), &wrap(&key_number(2)));
    assert!(!cache.is_busy());
}

#[test]
fn a_reader_during_a_rotation_sees_the_old_pair_whole() {
    let mut world = world();
    let mut cache = SessionKeyCache::new();
    let (_, old) = sealed(drive(
        Operation::encrypt_value_with_current_key(b"aad", &SecretValue::from("v")),
        &mut cache,
        &mut world,
    ));
    let (rotation, action) = Operation::rotate_session_key().step(&mut cache, Event::Resume);
    assert!(matches!(action, Action::GenerateKey));

    let (reader, action) =
        Operation::encrypt_value_with_current_key(b"aad", &SecretValue::from("during"))
            .step(&mut cache, Event::Resume);
    let sealed_event = match action {
        Action::Encrypt { aad, plain_text, key } => {
            assert_eq!(key.value().ref_sensitive_value(), &key_number(1));
            answer(&mut world, Action::Encrypt { aad, plain_text, key })
        }
        other => panic!("expected a request to seal, got {:?}", other),
    };

    let key_event = answer(&mut world, Action::GenerateKey);
    let (rotation, action) = rotation.step(&mut cache, key_event);
    let wrapped_event = answer(&mut world, action);
    let (_, action) = rotation.step(&mut cache, wrapped_event);
    let (previous, _) = match action {
        Action::Done(result) => rotated(result),
        other => panic!("expected the end of the rotation, got {:?}", other),
    };

    let (_, action) = reader.step(&mut cache, sealed_event);
    match action {
        Action::Done(result) => {
            let (cipher_text, session_key) = sealed(result);
            assert_eq!(session_key, old);
            assert_eq!(session_key, previous);
            let result = drive(
                Operation::decrypt_value_with_key(b"aad", &cipher_text, &session_key),
                &mut cache,
                &mut world,
            );
            assert_eq!(plain(result), b"during".to_vec());
        }
        other => panic!("expected the end of the call, got {:?}", other),
    }
}

#[test]
fn an_event_that_is_not_awaited_changes_nothing() {
    let mut world = world();
    let mut cache = SessionKeyCache::new();
    let operation = Operation::encrypt_value_with_current_key(b"aad", &SecretValue::from("v"));

    let (operation, action) =
        operation.step(&mut cache, Event::Encrypted(Some(CipherText::new(vec![1]))));
    assert!(matches!(action, Action::Wait));
    assert!(!cache.is_busy());

    let (operation, action) = operation.step(&mut cache, Event::Resume);
    assert!(matches!(action, Action::GenerateKey));
    let (operation, action) = operation.step(&mut cache, Event::Resume);
    assert!(matches!(action, Action::Wait));
    let (operation, action) =
        operation.step(&mut cache, Event::Wrapped(Err(BackendError::AccessDenied)));
    assert!(matches!(action, Action::Wait));
    assert!(cache.is_busy());
    assert!(!operation.is_finished());

    let key_event = answer(&mut world, Action::GenerateKey);
    let (operation, action) = operation.step(&mut cache, key_event);
    let wrapped_event = answer(&mut world, action);
    let (operation, action) = operation.step(&mut cache, Event::Decrypted(None));
    assert!(matches!(action, Action::Wait));
    let (operation, action) = operation.step(&mut cache, wrapped_event);
    let sealed_event = answer(&mut world, action);
    let (operation, action) = operation.step(&mut cache, sealed_event);
    assert!(matches!(action, Action::Done(Ok(Outcome::Sealed { .. }))));

    let (operation, action) = operation.step(&mut cache, Event::Resume);
    assert!(matches!(action, Action::Wait));
    assert!(operation.is_finished());
    assert_eq!(world.wraps, 1);
}

#[test]
fn the_operation_keeps_copies_of_what_it_was_given() {
    let mut world = world();
    let mut cache = SessionKeyCache::new();
    let operation = {
        let key = SecretValue::new(vec![0x11; 32]);
        let value = SecretValue::from("short-lived");
        let aad = b"scoped".to_vec();
        Operation::encrypt_value(&aad, &value, &key)
    };
    let result = drive(operation, &mut cache, &mut world);
    let cipher_text = match result {
        Ok(Outcome::CipherText(cipher_text)) => cipher_text,
        other => panic!("expected a ciphertext, got {:?}", other),
    };
    assert_eq!(open(&[0x11; 32], b"scoped", cipher_text.value()), Some(b"short-lived".to_vec()));
}

#[test]
fn printing_an_operation_shows_no_secret() {
    let key = SecretValue::from("key-material-0123456789");
    let value = SecretValue::from("plain-text-value");
    let operation = Operation::encrypt_value(b"aad", &value, &key);
    let text = format!("{:?}", operation);
    assert!(!text.contains("key-material"));
    assert!(!text.contains("plain-text-value"));
    let mut cache = SessionKeyCache::new();
    let (_, action) = operation.step(&mut cache, Event::Resume);
    let text = format!("{:?}", action);
    assert!(!text.contains("key-material"));
    assert!(!text.contains("plain-text-value"));
}

#[test]
fn decrypt_value_with_current_key_on_an_empty_cache_creates_the_key_first() {
    let mut world = world();
    let mut cache = SessionKeyCache::new();
    let foreign = CipherText::new(seal(&key_number(9), b"aad", 1, b"value"));
    let result = drive(
        Operation::decrypt_value_with_current_key(b"aad", &foreign),
        &mut cache,
        &mut world,
    );
    assert_eq!(failure(result), KmsAeadError::AuthenticationFailure);
    assert_eq!(world.wraps, 1);
    assert_eq!(world.unwraps, 1);
    assert_eq!(cache.current_session_key().unwrap().value(), &wrap(&key_number(1)));
    assert!(!cache.is_busy());
}

#[test]
fn decrypt_value_with_current_key_passes_an_unwrap_failure_on() {
    let mut world = world();
    let mut cache = SessionKeyCache::new();
    let (cipher_text, session_key) = sealed(drive(
        Operation::encrypt_value_with_current_key(b"aad", &SecretValue::from("value")),
        &mut cache,
        &mut world,
    ));
    world.unwrap_fails = Some(BackendError::Unavailable);
    let result = drive(
        Operation::decrypt_value_with_current_key(b"aad", &cipher_text),
        &mut cache,
        &mut world,
    );
    let error = failure(result);
    assert_eq!(error, KmsAeadError::BackendUnavailable);
    assert!(error.is_retryable());
    assert_eq!(cache.current_session_key(), Some(session_key));
}

#[test]
fn get_or_create_current_during_a_rotation_gives_the_old_pair() {
    let mut world = world();
    let mut cache = SessionKeyCache::new();
    let first = match drive(SessionKeyCache::get_or_create_current(), &mut cache, &mut world) {
        Ok(Outcome::CurrentKey(pair)) => pair,
        other => panic!("expected a pair, got {:?}", other),
    };
    let (rotation, action) = SessionKeyCache::rotate().step(&mut cache, Event::Resume);
    assert!(matches!(action, Action::GenerateKey));
    assert!(cache.is_busy());

    let (reader, action) = SessionKeyCache::get_or_create_current().step(&mut cache, Event::Resume);
    match action {
        Action::Done(Ok(Outcome::CurrentKey(pair))) => {
            assert_eq!(pair.key, first.key);
            assert_eq!(pair.wrapped, first.wrapped);
        }
        other => panic!("expected the old pair, got {:?}", other),
    }
    assert!(reader.is_finished());
    assert!(!rotation.is_finished());
    assert!(cache.is_busy());
}

#[test]
fn the_longest_operations_end_with_the_fifth_event() {
    let mut world = world();
    let mut cache = SessionKeyCache::new();
    let mut operation = SessionKeyCache::rotate();
    let mut event = Event::Resume;
    let mut events = 0;
    loop {
        let (next, action) = operation.step(&mut cache, event);
        operation = next;
        events += 1;
        match action {
            Action::Done(result) => {
                rotated(result);
                break;
            }
            action => event = answer(&mut world, action),
        }
    }
    assert_eq!(events, 5);

    let mut cache = SessionKeyCache::new();
    let cipher_text = CipherText::new(vec![0; 16]);
    let mut operation = Operation::decrypt_value_with_current_key(b"aad", &cipher_text);
    let mut event = Event::Resume;
    let mut events = 0;
    loop {
        let (next, action) = operation.step(&mut cache, event);
        operation = next;
        events += 1;
        match action {
            Action::Done(_) => break,
            action => event = answer(&mut world, action),
        }
    }
    assert_eq!(events, 5);
}
