//! Operations: one for each call that a caller makes, advanced step by step
//! by a driver that talks to the cipher and to the master-key backend.
//!
//! A driver begins with [`Event::Resume`], performs the [`Action`] that each
//! step returns, and hands the answer back as the next event, until the
//! action is [`Action::Done`].
//!
//! Each step is held to the transition function of [`crate::model`]. What an
//! operation as a whole gives its caller is stated and proved in
//! [`crate::contract`], and what holds across operations in [`crate::laws`]
//! and [`crate::sharing`].
use crate::cache::{SessionKeyCache, SessionKeyPair};
use crate::errors::{BackendError, KmsAeadError, KmsAeadResult};
use crate::model::{
    begin, key_generated, key_unwrapped, key_wrapped, proceed, step, value_decrypted,
    value_encrypted, ActionView, CurrentKeyUseView, EventView, KeyPlanView, OperationView,
    OutcomeView, RequestView, StepView,
};
use crate::secret::{clone_secret, secret_bytes};
use crate::values::{CipherText, DataEncryptionKey, EncryptedDataEncryptionKey};
use secret_vault_value::SecretValue;
use vstd::prelude::*;
use vstd::slice::slice_to_vec;

verus! {

/// What is done with the current key once it is in hand.
#[derive(Debug)]
pub(crate) enum CurrentKeyUse {
    Hand,
    Encrypt { aad: Vec<u8>, plain_text: SecretValue },
    Decrypt { aad: Vec<u8>, cipher_text: CipherText },
    Rotate,
}

/// What a caller asks for.
#[derive(Debug)]
pub(crate) enum Request {
    EncryptValue { aad: Vec<u8>, plain_text: SecretValue, session_key: DataEncryptionKey },
    DecryptValue { aad: Vec<u8>, cipher_text: CipherText, session_key: DataEncryptionKey },
    EncryptValueWithNewSessionKey { aad: Vec<u8>, plain_text: SecretValue },
    DecryptValueWithKey {
        aad: Vec<u8>,
        cipher_text: CipherText,
        encrypted_session_key: EncryptedDataEncryptionKey,
    },
    WithCurrentKey(CurrentKeyUse),
}

/// What a key that is being generated and wrapped is for.
#[derive(Debug)]
pub(crate) enum KeyPlan {
    Current(CurrentKeyUse),
    Replacement { previous: EncryptedDataEncryptionKey },
    OneOff { aad: Vec<u8>, plain_text: SecretValue },
}

/// Where an operation stands.
#[derive(Debug)]
pub(crate) enum Phase {
    Ready(Request),
    Generating(KeyPlan),
    Wrapping(KeyPlan, DataEncryptionKey),
    Unwrapping {
        aad: Vec<u8>,
        cipher_text: CipherText,
        session_key: Option<EncryptedDataEncryptionKey>,
    },
    Encrypting { session_key: Option<EncryptedDataEncryptionKey> },
    Decrypting { session_key: Option<EncryptedDataEncryptionKey> },
    Finished,
}

/// One call in progress. It holds what the call was given until the driver
/// needs it, and what it must remember between two steps.
#[derive(Debug)]
pub struct Operation {
    phase: Phase,
}

/// What an operation gives its caller when it succeeds.
#[derive(Debug)]
pub enum Outcome {
    /// Of `encrypt_value`.
    CipherText(CipherText),
    /// Of `decrypt_value` and `decrypt_value_with_key`.
    PlainText(SecretValue),
    /// Of `encrypt_value_with_current_key` and
    /// `encrypt_value_with_new_session_key`: the ciphertext, and the wrapped
    /// form of the key it was sealed under.
    Sealed { cipher_text: CipherText, session_key: EncryptedDataEncryptionKey },
    /// Of `decrypt_value_with_current_key`: the value, and the wrapped form
    /// of the key that opened it.
    Opened { plain_text: SecretValue, session_key: EncryptedDataEncryptionKey },
    /// Of `get_or_create_current`.
    CurrentKey(SessionKeyPair),
    /// Of `rotate` and `rotate_session_key`: the wrapped forms of the key
    /// that was current before and of the key that is current now.
    Rotated { previous: EncryptedDataEncryptionKey, current: EncryptedDataEncryptionKey },
}

/// What an operation asks of its driver.
#[derive(Debug)]
pub enum Action {
    /// Generate a new session key from a secure source of random bytes, and
    /// answer with [`Event::KeyGenerated`].
    GenerateKey,
    /// Have the backend wrap `key`, and answer with [`Event::Wrapped`].
    Wrap { key: DataEncryptionKey },
    /// Have the backend unwrap `wrapped`, and answer with
    /// [`Event::Unwrapped`].
    Unwrap { wrapped: EncryptedDataEncryptionKey },
    /// Have the cipher seal `plain_text` under `key`, bound to `aad`, and
    /// answer with [`Event::Encrypted`].
    Encrypt { aad: Vec<u8>, plain_text: SecretValue, key: DataEncryptionKey },
    /// Have the cipher open `cipher_text` under `key`, bound to `aad`, and
    /// answer with [`Event::Decrypted`].
    Decrypt { aad: Vec<u8>, cipher_text: CipherText, key: DataEncryptionKey },
    /// Nothing to perform. Another operation holds the cache: answer with
    /// [`Event::Resume`] once it may have finished. After any other event
    /// than the one awaited, the answer is still owed.
    Wait,
    /// The operation has ended with this result.
    Done(KmsAeadResult<Outcome>),
}

/// What a driver tells an operation.
#[derive(Debug)]
pub enum Event {
    /// Begin, or try again after [`Action::Wait`].
    Resume,
    /// The new key, or why none could be generated.
    KeyGenerated(Result<DataEncryptionKey, BackendError>),
    /// The wrapped form of the key, or why the backend gave none.
    Wrapped(Result<EncryptedDataEncryptionKey, BackendError>),
    /// The key in the clear, or why the backend gave none.
    Unwrapped(Result<DataEncryptionKey, BackendError>),
    /// The ciphertext, or `None` if the cipher could not seal the value.
    Encrypted(Option<CipherText>),
    /// The value, or `None` if the cipher did not accept the ciphertext under
    /// the key and the associated data. The cipher gives no reason, so none
    /// can leak.
    Decrypted(Option<SecretValue>),
}

impl View for CurrentKeyUse {
    type V = CurrentKeyUseView;

    open(crate) spec fn view(&self) -> CurrentKeyUseView {
        match self {
            CurrentKeyUse::Hand => CurrentKeyUseView::Hand,
            CurrentKeyUse::Encrypt { aad, plain_text } => CurrentKeyUseView::Encrypt {
                aad: aad@,
                plain_text: secret_bytes(*plain_text),
            },
            CurrentKeyUse::Decrypt { aad, cipher_text } => CurrentKeyUseView::Decrypt {
                aad: aad@,
                cipher_text: cipher_text@,
            },
            CurrentKeyUse::Rotate => CurrentKeyUseView::Rotate,
        }
    }
}

impl View for Request {
    type V = RequestView;

    open(crate) spec fn view(&self) -> RequestView {
        match self {
            Request::EncryptValue { aad, plain_text, session_key } => RequestView::EncryptValue {
                aad: aad@,
                plain_text: secret_bytes(*plain_text),
                session_key: session_key@,
            },
            Request::DecryptValue { aad, cipher_text, session_key } => RequestView::DecryptValue {
                aad: aad@,
                cipher_text: cipher_text@,
                session_key: session_key@,
            },
            Request::EncryptValueWithNewSessionKey {
                aad,
                plain_text,
            } => RequestView::EncryptValueWithNewSessionKey {
                aad: aad@,
                plain_text: secret_bytes(*plain_text),
            },
            Request::DecryptValueWithKey {
                aad,
                cipher_text,
                encrypted_session_key,
            } => RequestView::DecryptValueWithKey {
                aad: aad@,
                cipher_text: cipher_text@,
                encrypted_session_key: encrypted_session_key@,
            },
            Request::WithCurrentKey(purpose) => RequestView::WithCurrentKey(purpose@),
        }
    }
}

impl View for KeyPlan {
    type V = KeyPlanView;

    open(crate) spec fn view(&self) -> KeyPlanView {
        match self {
            KeyPlan::Current(purpose) => KeyPlanView::Current(purpose@),
            KeyPlan::Replacement { previous } => KeyPlanView::Replacement { previous: previous@ },
            KeyPlan::OneOff { aad, plain_text } => KeyPlanView::OneOff {
                aad: aad@,
                plain_text: secret_bytes(*plain_text),
            },
        }
    }
}

/// The bytes of a wrapped key that may be absent.
pub(crate) open spec fn wrapped_view(session_key: Option<EncryptedDataEncryptionKey>) -> Option<
    Seq<u8>,
> {
    match session_key {
        Some(wrapped) => Some(wrapped@),
        None => None,
    }
}

impl View for Phase {
    type V = OperationView;

    closed spec fn view(&self) -> OperationView {
        match self {
            Phase::Ready(request) => OperationView::Ready(request@),
            Phase::Generating(plan) => OperationView::Generating(plan@),
            Phase::Wrapping(plan, key) => OperationView::Wrapping(plan@, key@),
            Phase::Unwrapping { aad, cipher_text, session_key } => OperationView::Unwrapping {
                aad: aad@,
                cipher_text: cipher_text@,
                session_key: wrapped_view(*session_key),
            },
            Phase::Encrypting { session_key } => OperationView::Encrypting {
                session_key: wrapped_view(*session_key),
            },
            Phase::Decrypting { session_key } => OperationView::Decrypting {
                session_key: wrapped_view(*session_key),
            },
            Phase::Finished => OperationView::Finished,
        }
    }
}

impl View for Operation {
    type V = OperationView;

    closed spec fn view(&self) -> OperationView {
        self.phase@
    }
}

impl View for Outcome {
    type V = OutcomeView;

    open spec fn view(&self) -> OutcomeView {
        match self {
            Outcome::CipherText(cipher_text) => OutcomeView::CipherText(cipher_text@),
            Outcome::PlainText(plain_text) => OutcomeView::PlainText(secret_bytes(*plain_text)),
            Outcome::Sealed { cipher_text, session_key } => OutcomeView::Sealed {
                cipher_text: cipher_text@,
                session_key: session_key@,
            },
            Outcome::Opened { plain_text, session_key } => OutcomeView::Opened {
                plain_text: secret_bytes(*plain_text),
                session_key: session_key@,
            },
            Outcome::CurrentKey(pair) => OutcomeView::CurrentKey(pair@),
            Outcome::Rotated { previous, current } => OutcomeView::Rotated {
                previous: previous@,
                current: current@,
            },
        }
    }
}

impl View for Action {
    type V = ActionView;

    open spec fn view(&self) -> ActionView {
        match self {
            Action::GenerateKey => ActionView::GenerateKey,
            Action::Wrap { key } => ActionView::Wrap { key: key@ },
            Action::Unwrap { wrapped } => ActionView::Unwrap { wrapped: wrapped@ },
            Action::Encrypt { aad, plain_text, key } => ActionView::Encrypt {
                aad: aad@,
                plain_text: secret_bytes(*plain_text),
                key: key@,
            },
            Action::Decrypt { aad, cipher_text, key } => ActionView::Decrypt {
                aad: aad@,
                cipher_text: cipher_text@,
                key: key@,
            },
            Action::Wait => ActionView::Wait,
            Action::Done(result) => ActionView::Done(
                match result {
                    Ok(outcome) => Ok(outcome@),
                    Err(error) => Err(*error),
                },
            ),
        }
    }
}

impl View for Event {
    type V = EventView;

    open spec fn view(&self) -> EventView {
        match self {
            Event::Resume => EventView::Resume,
            Event::KeyGenerated(answer) => EventView::KeyGenerated(
                match answer {
                    Ok(key) => Ok(key@),
                    Err(error) => Err(*error),
                },
            ),
            Event::Wrapped(answer) => EventView::Wrapped(
                match answer {
                    Ok(wrapped) => Ok(wrapped@),
                    Err(error) => Err(*error),
                },
            ),
            Event::Unwrapped(answer) => EventView::Unwrapped(
                match answer {
                    Ok(key) => Ok(key@),
                    Err(error) => Err(*error),
                },
            ),
            Event::Encrypted(answer) => EventView::Encrypted(
                match answer {
                    Some(cipher_text) => Some(cipher_text@),
                    None => None,
                },
            ),
            Event::Decrypted(answer) => EventView::Decrypted(
                match answer {
                    Some(plain_text) => Some(secret_bytes(*plain_text)),
                    None => None,
                },
            ),
        }
    }
}

/// What one step gives back, as the model sees it.
pub open spec fn step_view(operation: Operation, cache: SessionKeyCache, action: Action) -> StepView {
    StepView { operation: operation@, cache: cache@, action: action@ }
}

/// The operation ends with `result`.
fn finish(result: KmsAeadResult<Outcome>) -> (next: (Operation, Action))
    ensures
        next.0@ == OperationView::Finished,
        next.1@ == (Action::Done(result))@,
{
    (Operation { phase: Phase::Finished }, Action::Done(result))
}

/// Frees the cache if an operation with plan `plan` holds it.
fn give_up(plan: &KeyPlan, cache: &mut SessionKeyCache)
    ensures
        final(cache)@ == crate::model::given_up(plan@, old(cache)@),
{
    match plan {
        KeyPlan::OneOff { .. } => {},
        _ => {
            cache.release();
        },
    }
}

/// Goes on with the current pair `pair` in hand.
fn proceed_with(purpose: CurrentKeyUse, pair: SessionKeyPair, cache: &mut SessionKeyCache) -> (next:
    (Operation, Action))
    ensures
        step_view(next.0, *final(cache), next.1) == proceed(purpose@, pair@, old(cache)@),
{
    match purpose {
        CurrentKeyUse::Hand => finish(Ok(Outcome::CurrentKey(pair))),
        CurrentKeyUse::Encrypt { aad, plain_text } => (
            Operation { phase: Phase::Encrypting { session_key: Some(pair.wrapped) } },
            Action::Encrypt { aad, plain_text, key: pair.key },
        ),
        CurrentKeyUse::Decrypt { aad, cipher_text } => {
            let wrapped = pair.wrapped.clone();
            (
                Operation {
                    phase: Phase::Unwrapping { aad, cipher_text, session_key: Some(pair.wrapped) },
                },
                Action::Unwrap { wrapped },
            )
        },
        CurrentKeyUse::Rotate => {
            cache.claim();
            (
                Operation {
                    phase: Phase::Generating(KeyPlan::Replacement { previous: pair.wrapped }),
                },
                Action::GenerateKey,
            )
        },
    }
}

/// Begins an operation, or tries again to begin one that had to wait.
fn begin_request(request: Request, cache: &mut SessionKeyCache) -> (next: (Operation, Action))
    ensures
        step_view(next.0, *final(cache), next.1) == begin(request@, old(cache)@),
{
    match request {
        Request::EncryptValue { aad, plain_text, session_key } => (
            Operation { phase: Phase::Encrypting { session_key: None } },
            Action::Encrypt { aad, plain_text, key: session_key },
        ),
        Request::DecryptValue { aad, cipher_text, session_key } => (
            Operation { phase: Phase::Decrypting { session_key: None } },
            Action::Decrypt { aad, cipher_text, key: session_key },
        ),
        Request::EncryptValueWithNewSessionKey { aad, plain_text } => (
            Operation { phase: Phase::Generating(KeyPlan::OneOff { aad, plain_text }) },
            Action::GenerateKey,
        ),
        Request::DecryptValueWithKey { aad, cipher_text, encrypted_session_key } => (
            Operation { phase: Phase::Unwrapping { aad, cipher_text, session_key: None } },
            Action::Unwrap { wrapped: encrypted_session_key },
        ),
        Request::WithCurrentKey(purpose) => {
            let rotating = match &purpose {
                CurrentKeyUse::Rotate => true,
                _ => false,
            };
            if cache.is_busy() && (rotating || !cache.has_current()) {
                (Operation { phase: Phase::Ready(Request::WithCurrentKey(purpose)) }, Action::Wait)
            } else {
                match cache.current() {
                    Some(pair) => proceed_with(purpose, pair, cache),
                    None => {
                        cache.claim();
                        (
                            Operation { phase: Phase::Generating(KeyPlan::Current(purpose)) },
                            Action::GenerateKey,
                        )
                    },
                }
            }
        },
    }
}

/// Takes the answer of the source of random bytes.
fn on_key_generated(
    plan: KeyPlan,
    answer: Result<DataEncryptionKey, BackendError>,
    cache: &mut SessionKeyCache,
) -> (next: (Operation, Action))
    ensures
        step_view(next.0, *final(cache), next.1) == key_generated(
            plan@,
            (Event::KeyGenerated(answer))@->KeyGenerated_0,
            old(cache)@,
        ),
{
    match answer {
        Ok(key) => {
            let copy = key.clone();
            (Operation { phase: Phase::Wrapping(plan, key) }, Action::Wrap { key: copy })
        },
        Err(error) => {
            give_up(&plan, cache);
            finish(Err(KmsAeadError::from_backend(error)))
        },
    }
}

/// Takes the backend's answer to a request to wrap `key`.
fn on_key_wrapped(
    plan: KeyPlan,
    key: DataEncryptionKey,
    answer: Result<EncryptedDataEncryptionKey, BackendError>,
    cache: &mut SessionKeyCache,
) -> (next: (Operation, Action))
    ensures
        step_view(next.0, *final(cache), next.1) == key_wrapped(
            plan@,
            key@,
            (Event::Wrapped(answer))@->Wrapped_0,
            old(cache)@,
        ),
{
    match answer {
        Ok(wrapped) => match plan {
            KeyPlan::Current(purpose) => {
                let pair = SessionKeyPair { key, wrapped };
                let copy = pair.clone();
                cache.install(pair);
                proceed_with(purpose, copy, cache)
            },
            KeyPlan::Replacement { previous } => {
                let current = wrapped.clone();
                cache.install(SessionKeyPair { key, wrapped });
                finish(Ok(Outcome::Rotated { previous, current }))
            },
            KeyPlan::OneOff { aad, plain_text } => (
                Operation { phase: Phase::Encrypting { session_key: Some(wrapped) } },
                Action::Encrypt { aad, plain_text, key },
            ),
        },
        Err(error) => {
            give_up(&plan, cache);
            finish(Err(KmsAeadError::from_backend(error)))
        },
    }
}

/// Takes the backend's answer to a request to unwrap a key.
fn on_key_unwrapped(
    aad: Vec<u8>,
    cipher_text: CipherText,
    session_key: Option<EncryptedDataEncryptionKey>,
    answer: Result<DataEncryptionKey, BackendError>,
    cache: &SessionKeyCache,
) -> (next: (Operation, Action))
    ensures
        step_view(next.0, *cache, next.1) == key_unwrapped(
            aad@,
            cipher_text@,
            wrapped_view(session_key),
            (Event::Unwrapped(answer))@->Unwrapped_0,
            cache@,
        ),
{
    match answer {
        Ok(key) => (
            Operation { phase: Phase::Decrypting { session_key } },
            Action::Decrypt { aad, cipher_text, key },
        ),
        Err(error) => finish(Err(KmsAeadError::from_backend(error))),
    }
}

/// Takes the cipher's answer to a request to seal a value.
fn on_value_encrypted(
    session_key: Option<EncryptedDataEncryptionKey>,
    answer: Option<CipherText>,
    cache: &SessionKeyCache,
) -> (next: (Operation, Action))
    ensures
        step_view(next.0, *cache, next.1) == value_encrypted(
            wrapped_view(session_key),
            (Event::Encrypted(answer))@->Encrypted_0,
            cache@,
        ),
{
    match answer {
        Some(cipher_text) => match session_key {
            Some(session_key) => finish(Ok(Outcome::Sealed { cipher_text, session_key })),
            None => finish(Ok(Outcome::CipherText(cipher_text))),
        },
        None => finish(Err(KmsAeadError::EncryptionFailure)),
    }
}

/// Takes the cipher's answer to a request to open a ciphertext.
fn on_value_decrypted(
    session_key: Option<EncryptedDataEncryptionKey>,
    answer: Option<SecretValue>,
    cache: &SessionKeyCache,
) -> (next: (Operation, Action))
    ensures
        step_view(next.0, *cache, next.1) == value_decrypted(
            wrapped_view(session_key),
            (Event::Decrypted(answer))@->Decrypted_0,
            cache@,
        ),
{
    match answer {
        Some(plain_text) => match session_key {
            Some(session_key) => finish(Ok(Outcome::Opened { plain_text, session_key })),
            None => finish(Ok(Outcome::PlainText(plain_text))),
        },
        None => finish(Err(KmsAeadError::AuthenticationFailure)),
    }
}

impl Operation {
    /// An operation that has not begun.
    pub(crate) fn ready(request: Request) -> (operation: Operation)
        ensures
            operation@ == OperationView::Ready(request@),
    {
        Operation { phase: Phase::Ready(request) }
    }

    /// Seals `plain_text` under `session_key`, bound to `aad`. The cache
    /// plays no part. Ends with [`Outcome::CipherText`], or with
    /// `EncryptionFailure` if the cipher cannot seal.
    pub fn encrypt_value(aad: &[u8], plain_text: &SecretValue, session_key: &SecretValue) -> (operation:
        Operation)
        ensures
            operation@ == OperationView::encrypt_value(
                aad@,
                secret_bytes(*plain_text),
                secret_bytes(*session_key),
            ),
    {
        Operation::ready(
            Request::EncryptValue {
                aad: slice_to_vec(aad),
                plain_text: clone_secret(plain_text),
                session_key: DataEncryptionKey(clone_secret(session_key)),
            },
        )
    }

    /// Opens `cipher_text` with `session_key`, bound to `aad`. The cache
    /// plays no part. Ends with [`Outcome::PlainText`], or with
    /// `AuthenticationFailure` if the cipher does not accept the ciphertext.
    pub fn decrypt_value(aad: &[u8], cipher_text: &CipherText, session_key: &SecretValue) -> (operation:
        Operation)
        ensures
            operation@ == OperationView::decrypt_value(
                aad@,
                cipher_text@,
                secret_bytes(*session_key),
            ),
    {
        Operation::ready(
            Request::DecryptValue {
                aad: slice_to_vec(aad),
                cipher_text: cipher_text.clone(),
                session_key: DataEncryptionKey(clone_secret(session_key)),
            },
        )
    }

    /// Seals `plain_text` under the current key of the cache, which is
    /// generated and wrapped first if the cache holds none. Ends with
    /// [`Outcome::Sealed`]: the ciphertext and the wrapped form of the key,
    /// which the caller keeps beside the ciphertext.
    pub fn encrypt_value_with_current_key(aad: &[u8], plain_text: &SecretValue) -> (operation:
        Operation)
        ensures
            operation@ == OperationView::encrypt_value_with_current_key(
                aad@,
                secret_bytes(*plain_text),
            ),
    {
        Operation::ready(
            Request::WithCurrentKey(
                CurrentKeyUse::Encrypt {
                    aad: slice_to_vec(aad),
                    plain_text: clone_secret(plain_text),
                },
            ),
        )
    }

    /// Seals `plain_text` under a key that is generated and wrapped for this
    /// value alone. The cache is neither read nor changed. Ends with
    /// [`Outcome::Sealed`].
    pub fn encrypt_value_with_new_session_key(aad: &[u8], plain_text: &SecretValue) -> (operation:
        Operation)
        ensures
            operation@ == OperationView::encrypt_value_with_new_session_key(
                aad@,
                secret_bytes(*plain_text),
            ),
    {
        Operation::ready(
            Request::EncryptValueWithNewSessionKey {
                aad: slice_to_vec(aad),
                plain_text: clone_secret(plain_text),
            },
        )
    }

    /// Has the backend unwrap `encrypted_session_key` and opens `cipher_text`
    /// with the key it gives, whether or not that key is still the current
    /// one. The cache plays no part. Ends with [`Outcome::PlainText`].
    pub fn decrypt_value_with_key(
        aad: &[u8],
        cipher_text: &CipherText,
        encrypted_session_key: &EncryptedDataEncryptionKey,
    ) -> (operation: Operation)
        ensures
            operation@ == OperationView::decrypt_value_with_key(
                aad@,
                cipher_text@,
                encrypted_session_key@,
            ),
    {
        Operation::ready(
            Request::DecryptValueWithKey {
                aad: slice_to_vec(aad),
                cipher_text: cipher_text.clone(),
                encrypted_session_key: encrypted_session_key.clone(),
            },
        )
    }

    /// Has the backend unwrap the wrapped form of the current key and opens
    /// `cipher_text` with the key it gives. Ends with [`Outcome::Opened`]:
    /// the value and the wrapped form of the key that was used.
    pub fn decrypt_value_with_current_key(aad: &[u8], cipher_text: &CipherText) -> (operation:
        Operation)
        ensures
            operation@ == OperationView::decrypt_value_with_current_key(aad@, cipher_text@),
    {
        Operation::ready(
            Request::WithCurrentKey(
                CurrentKeyUse::Decrypt { aad: slice_to_vec(aad), cipher_text: cipher_text.clone() },
            ),
        )
    }

    /// Replaces the current key of the cache: the rotation of
    /// [`SessionKeyCache::rotate`], with nothing added. Ends with
    /// [`Outcome::Rotated`].
    pub fn rotate_session_key() -> (operation: Operation)
        ensures
            operation@ == OperationView::rotate(),
    {
        SessionKeyCache::rotate()
    }

    /// Whether the operation has ended: its result was given out, and every
    /// further event is answered with [`Action::Wait`].
    pub fn is_finished(&self) -> (finished: bool)
        ensures
            finished == (self@ is Finished),
    {
        match &self.phase {
            Phase::Finished => true,
            _ => false,
        }
    }

    /// Advances the operation by one event and says what the driver is to do
    /// next. The cache is read and changed only here, and only as the
    /// transition function [`step`] says.
    pub fn step(self, cache: &mut SessionKeyCache, event: Event) -> (next: (Operation, Action))
        ensures
            step_view(next.0, *final(cache), next.1) == step(self@, old(cache)@, event@),
    {
        match (self.phase, event) {
            (Phase::Ready(request), Event::Resume) => begin_request(request, cache),
            (Phase::Generating(plan), Event::KeyGenerated(answer)) => on_key_generated(
                plan,
                answer,
                cache,
            ),
            (Phase::Wrapping(plan, key), Event::Wrapped(answer)) => on_key_wrapped(
                plan,
                key,
                answer,
                cache,
            ),
            (
                Phase::Unwrapping { aad, cipher_text, session_key },
                Event::Unwrapped(answer),
            ) => on_key_unwrapped(aad, cipher_text, session_key, answer, cache),
            (Phase::Encrypting { session_key }, Event::Encrypted(answer)) => on_value_encrypted(
                session_key,
                answer,
                cache,
            ),
            (Phase::Decrypting { session_key }, Event::Decrypted(answer)) => on_value_decrypted(
                session_key,
                answer,
                cache,
            ),
            (phase, _) => (Operation { phase }, Action::Wait),
        }
    }
}

} // verus!
