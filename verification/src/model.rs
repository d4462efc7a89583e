//! The protocol as mathematics: what an operation, the cache and the
//! messages between an operation and its driver are, and the transition
//! function that the executable code is held to.
//!
//! Every value here is made of byte sequences. The executable types of
//! [`crate::cache`] and [`crate::protocol`] have these as their views.
use crate::errors::{BackendError, KmsAeadError};
use vstd::prelude::*;

verus! {

/// A session key with its wrapped form.
pub struct SessionKeyPairView {
    pub key: Seq<u8>,
    pub wrapped: Seq<u8>,
}

/// The session key cache: the current pair, if there is one, and whether a
/// generate-and-wrap sequence that will set it is under way.
pub struct CacheView {
    pub current: Option<SessionKeyPairView>,
    pub busy: bool,
}

/// What is done with the current key once it is in hand.
pub enum CurrentKeyUseView {
    /// Hand the pair to the caller.
    Hand,
    /// Seal a value under it.
    Encrypt { aad: Seq<u8>, plain_text: Seq<u8> },
    /// Open a ciphertext with it.
    Decrypt { aad: Seq<u8>, cipher_text: Seq<u8> },
    /// Replace it by a new key.
    Rotate,
}

/// What a caller asks for.
pub enum RequestView {
    EncryptValue { aad: Seq<u8>, plain_text: Seq<u8>, session_key: Seq<u8> },
    DecryptValue { aad: Seq<u8>, cipher_text: Seq<u8>, session_key: Seq<u8> },
    EncryptValueWithNewSessionKey { aad: Seq<u8>, plain_text: Seq<u8> },
    DecryptValueWithKey { aad: Seq<u8>, cipher_text: Seq<u8>, encrypted_session_key: Seq<u8> },
    WithCurrentKey(CurrentKeyUseView),
}

/// What a key that is being generated and wrapped is for.
pub enum KeyPlanView {
    /// It becomes the current key of a cache that has none, and is then used.
    Current(CurrentKeyUseView),
    /// It replaces the current key, whose wrapped form was `previous`.
    Replacement { previous: Seq<u8> },
    /// It seals one value and is not kept.
    OneOff { aad: Seq<u8>, plain_text: Seq<u8> },
}

/// Where an operation stands.
pub enum OperationView {
    /// Not begun, or told to wait for the cache.
    Ready(RequestView),
    /// A new key was asked for.
    Generating(KeyPlanView),
    /// The new key `key` was handed to the backend to be wrapped.
    Wrapping(KeyPlanView, Seq<u8>),
    /// A wrapped key was handed to the backend to be unwrapped.
    Unwrapping { aad: Seq<u8>, cipher_text: Seq<u8>, session_key: Option<Seq<u8>> },
    /// A value was handed to the cipher to be sealed.
    Encrypting { session_key: Option<Seq<u8>> },
    /// A ciphertext was handed to the cipher to be opened.
    Decrypting { session_key: Option<Seq<u8>> },
    /// The result was given out.
    Finished,
}

/// What an operation gives its caller when it succeeds.
pub enum OutcomeView {
    CipherText(Seq<u8>),
    PlainText(Seq<u8>),
    Sealed { cipher_text: Seq<u8>, session_key: Seq<u8> },
    Opened { plain_text: Seq<u8>, session_key: Seq<u8> },
    CurrentKey(SessionKeyPairView),
    Rotated { previous: Seq<u8>, current: Seq<u8> },
}

/// What an operation asks of its driver.
pub enum ActionView {
    GenerateKey,
    Wrap { key: Seq<u8> },
    Unwrap { wrapped: Seq<u8> },
    Encrypt { aad: Seq<u8>, plain_text: Seq<u8>, key: Seq<u8> },
    Decrypt { aad: Seq<u8>, cipher_text: Seq<u8>, key: Seq<u8> },
    Wait,
    Done(Result<OutcomeView, KmsAeadError>),
}

/// What a driver tells an operation.
pub enum EventView {
    Resume,
    KeyGenerated(Result<Seq<u8>, BackendError>),
    Wrapped(Result<Seq<u8>, BackendError>),
    Unwrapped(Result<Seq<u8>, BackendError>),
    Encrypted(Option<Seq<u8>>),
    Decrypted(Option<Seq<u8>>),
}

/// The result of one step: the operation and the cache after it, and what
/// the driver is asked to do.
pub struct StepView {
    pub operation: OperationView,
    pub cache: CacheView,
    pub action: ActionView,
}

impl OperationView {
    /// `encrypt_value`: seal `plain_text` under the caller's own key.
    pub open spec fn encrypt_value(aad: Seq<u8>, plain_text: Seq<u8>, session_key: Seq<u8>) -> OperationView {
        OperationView::Ready(RequestView::EncryptValue { aad, plain_text, session_key })
    }

    /// `decrypt_value`: open `cipher_text` with the caller's own key.
    pub open spec fn decrypt_value(aad: Seq<u8>, cipher_text: Seq<u8>, session_key: Seq<u8>) -> OperationView {
        OperationView::Ready(RequestView::DecryptValue { aad, cipher_text, session_key })
    }

    /// `encrypt_value_with_current_key`: seal `plain_text` under the current
    /// key of the cache.
    pub open spec fn encrypt_value_with_current_key(aad: Seq<u8>, plain_text: Seq<u8>) -> OperationView {
        OperationView::Ready(
            RequestView::WithCurrentKey(CurrentKeyUseView::Encrypt { aad, plain_text }),
        )
    }

    /// `encrypt_value_with_new_session_key`: seal `plain_text` under a key
    /// made for it alone.
    pub open spec fn encrypt_value_with_new_session_key(aad: Seq<u8>, plain_text: Seq<u8>) -> OperationView {
        OperationView::Ready(RequestView::EncryptValueWithNewSessionKey { aad, plain_text })
    }

    /// `decrypt_value_with_key`: open `cipher_text` with the key that
    /// `encrypted_session_key` wraps.
    pub open spec fn decrypt_value_with_key(
        aad: Seq<u8>,
        cipher_text: Seq<u8>,
        encrypted_session_key: Seq<u8>,
    ) -> OperationView {
        OperationView::Ready(
            RequestView::DecryptValueWithKey { aad, cipher_text, encrypted_session_key },
        )
    }

    /// `decrypt_value_with_current_key`: open `cipher_text` with the current
    /// key of the cache.
    pub open spec fn decrypt_value_with_current_key(aad: Seq<u8>, cipher_text: Seq<u8>) -> OperationView {
        OperationView::Ready(
            RequestView::WithCurrentKey(CurrentKeyUseView::Decrypt { aad, cipher_text }),
        )
    }

    /// `get_or_create_current`: the current pair of the cache.
    pub open spec fn get_or_create_current() -> OperationView {
        OperationView::Ready(RequestView::WithCurrentKey(CurrentKeyUseView::Hand))
    }

    /// `rotate`: replace the current key of the cache.
    pub open spec fn rotate() -> OperationView {
        OperationView::Ready(RequestView::WithCurrentKey(CurrentKeyUseView::Rotate))
    }

    /// Whether the operation holds the cache: it generates and wraps the key
    /// that will be the current one.
    pub open spec fn holds_cache(self) -> bool {
        match self {
            OperationView::Generating(plan) => plan.holds_cache(),
            OperationView::Wrapping(plan, _) => plan.holds_cache(),
            _ => false,
        }
    }

    /// The first step of the operation on `cache`.
    pub open spec fn start(self, cache: CacheView) -> StepView {
        step(self, cache, EventView::Resume)
    }
}

impl StepView {
    /// The step that follows when the driver delivers `event`.
    pub open spec fn on(self, event: EventView) -> StepView {
        step(self.operation, self.cache, event)
    }
}

impl StepView {
    /// Whether the operation ended in this step, with `outcome`.
    pub open spec fn completes_with(self, outcome: OutcomeView) -> bool {
        self.action == ActionView::Done(Ok(outcome))
    }

    /// Whether the operation ended in this step, with the error `error`.
    pub open spec fn fails_with(self, error: KmsAeadError) -> bool {
        self.action == ActionView::Done(Err(error))
    }
}

/// The operation and the cache after the driver has delivered `events` one
/// after the other, and the action of the last step. Before any event the
/// action is to wait: the driver owes `Resume`.
pub open spec fn run(operation: OperationView, cache: CacheView, events: Seq<EventView>) -> StepView
    decreases events.len(),
{
    if events.len() == 0 {
        stay(operation, cache)
    } else {
        run(operation, cache, events.drop_last()).on(events.last())
    }
}

/// The cipher and the backend, as far as the protocol relies on them: what
/// the cipher's `decrypt` gives for a key, associated data and a ciphertext,
/// and what the backend's `unwrap` gives for a wrapped key. Sealing and
/// wrapping may draw on chance, so they are spoken of through these two: a
/// ciphertext of a value is whatever opens to it, and a wrapped form of a key
/// is whatever unwraps to it.
pub struct Collaborators {
    pub open: spec_fn(Seq<u8>, Seq<u8>, Seq<u8>) -> Option<Seq<u8>>,
    pub unwrap: spec_fn(Seq<u8>) -> Result<Seq<u8>, BackendError>,
}

impl Collaborators {
    /// Whether `cipher_text` is a ciphertext of `plain_text` under `key`,
    /// bound to `aad`.
    pub open spec fn seals(self, key: Seq<u8>, aad: Seq<u8>, plain_text: Seq<u8>, cipher_text: Seq<u8>) -> bool {
        (self.open)(key, aad, cipher_text) == Some(plain_text)
    }

    /// Whether `wrapped` is a wrapped form of `key`.
    pub open spec fn wraps(self, key: Seq<u8>, wrapped: Seq<u8>) -> bool {
        (self.unwrap)(wrapped) == Ok::<Seq<u8>, BackendError>(key)
    }

    /// Whether `event` is an answer that these collaborators may give to
    /// `action`, the backend being in reach. A key may be any key; what is
    /// sealed opens again and what is wrapped unwraps again; opening and
    /// unwrapping give what they give.
    pub open spec fn answers(self, action: ActionView, event: EventView) -> bool {
        match action {
            ActionView::GenerateKey => event is KeyGenerated,
            ActionView::Wrap { key } => event matches EventView::Wrapped(answer) && (
            answer matches Ok(wrapped) ==> self.wraps(key, wrapped)),
            ActionView::Unwrap { wrapped } => event == EventView::Unwrapped((self.unwrap)(wrapped)),
            ActionView::Encrypt { aad, plain_text, key } => event matches EventView::Encrypted(
                answer,
            ) && (answer matches Some(cipher_text) ==> self.seals(
                key,
                aad,
                plain_text,
                cipher_text,
            )),
            ActionView::Decrypt { aad, cipher_text, key } => event == EventView::Decrypted(
                (self.open)(key, aad, cipher_text),
            ),
            ActionView::Wait => event == EventView::Resume,
            ActionView::Done(_) => false,
        }
    }

    /// Whether each of `events` is an answer that these collaborators may
    /// give to the action before it: the first is `Resume`, and no event
    /// follows the end of the operation.
    pub open spec fn faithful(self, operation: OperationView, cache: CacheView, events: Seq<EventView>) -> bool
        decreases events.len(),
    {
        events.len() == 0 || (self.faithful(operation, cache, events.drop_last()) && self.answers(
            run(operation, cache, events.drop_last()).action,
            events.last(),
        ))
    }

    /// Whether the pair that `cache` holds, if any, is a key with a wrapped
    /// form of it.
    pub open spec fn coherent(self, cache: CacheView) -> bool {
        cache.current matches Some(pair) ==> self.wraps(pair.key, pair.wrapped)
    }
}

impl CacheView {
    /// A cache that holds no key, with nothing under way.
    pub open spec fn empty() -> CacheView {
        CacheView { current: None, busy: false }
    }

    /// The cache once the sequence that held it has ended without a new key.
    pub open spec fn released(self) -> CacheView {
        CacheView { current: self.current, busy: false }
    }

    /// The cache once a sequence that will set its key has begun.
    pub open spec fn claimed(self) -> CacheView {
        CacheView { current: self.current, busy: true }
    }

    /// The cache once the sequence that held it has ended with `pair`.
    pub open spec fn installed(pair: SessionKeyPairView) -> CacheView {
        CacheView { current: Some(pair), busy: false }
    }
}

impl KeyPlanView {
    /// Whether the cache is held while the key is generated and wrapped.
    pub open spec fn holds_cache(self) -> bool {
        !(self is OneOff)
    }
}

/// The operation ends with `result`.
pub open spec fn finish(cache: CacheView, result: Result<OutcomeView, KmsAeadError>) -> StepView {
    StepView { operation: OperationView::Finished, cache, action: ActionView::Done(result) }
}

/// Nothing happens: the operation and the cache stay as they are.
pub open spec fn stay(operation: OperationView, cache: CacheView) -> StepView {
    StepView { operation, cache, action: ActionView::Wait }
}

/// The cache as an operation with plan `plan` leaves it when it gives up.
pub open spec fn given_up(plan: KeyPlanView, cache: CacheView) -> CacheView {
    if plan.holds_cache() {
        cache.released()
    } else {
        cache
    }
}

/// An operation that has the current pair `pair` in hand goes on with it.
pub open spec fn proceed(purpose: CurrentKeyUseView, pair: SessionKeyPairView, cache: CacheView) -> StepView {
    match purpose {
        CurrentKeyUseView::Hand => finish(cache, Ok(OutcomeView::CurrentKey(pair))),
        CurrentKeyUseView::Encrypt { aad, plain_text } => StepView {
            operation: OperationView::Encrypting { session_key: Some(pair.wrapped) },
            cache,
            action: ActionView::Encrypt { aad, plain_text, key: pair.key },
        },
        CurrentKeyUseView::Decrypt { aad, cipher_text } => StepView {
            operation: OperationView::Unwrapping {
                aad,
                cipher_text,
                session_key: Some(pair.wrapped),
            },
            cache,
            action: ActionView::Unwrap { wrapped: pair.wrapped },
        },
        CurrentKeyUseView::Rotate => StepView {
            operation: OperationView::Generating(
                KeyPlanView::Replacement { previous: pair.wrapped },
            ),
            cache: cache.claimed(),
            action: ActionView::GenerateKey,
        },
    }
}

/// An operation that has not begun is resumed.
pub open spec fn begin(request: RequestView, cache: CacheView) -> StepView {
    match request {
        RequestView::EncryptValue { aad, plain_text, session_key } => StepView {
            operation: OperationView::Encrypting { session_key: None },
            cache,
            action: ActionView::Encrypt { aad, plain_text, key: session_key },
        },
        RequestView::DecryptValue { aad, cipher_text, session_key } => StepView {
            operation: OperationView::Decrypting { session_key: None },
            cache,
            action: ActionView::Decrypt { aad, cipher_text, key: session_key },
        },
        RequestView::EncryptValueWithNewSessionKey { aad, plain_text } => StepView {
            operation: OperationView::Generating(KeyPlanView::OneOff { aad, plain_text }),
            cache,
            action: ActionView::GenerateKey,
        },
        RequestView::DecryptValueWithKey { aad, cipher_text, encrypted_session_key } => StepView {
            operation: OperationView::Unwrapping { aad, cipher_text, session_key: None },
            cache,
            action: ActionView::Unwrap { wrapped: encrypted_session_key },
        },
        RequestView::WithCurrentKey(purpose) => {
            if cache.busy && (cache.current is None || purpose is Rotate) {
                stay(OperationView::Ready(request), cache)
            } else {
                match cache.current {
                    Some(pair) => proceed(purpose, pair, cache),
                    None => StepView {
                        operation: OperationView::Generating(KeyPlanView::Current(purpose)),
                        cache: cache.claimed(),
                        action: ActionView::GenerateKey,
                    },
                }
            }
        },
    }
}

/// The source of random bytes has answered.
pub open spec fn key_generated(
    plan: KeyPlanView,
    answer: Result<Seq<u8>, BackendError>,
    cache: CacheView,
) -> StepView {
    match answer {
        Ok(key) => StepView {
            operation: OperationView::Wrapping(plan, key),
            cache,
            action: ActionView::Wrap { key },
        },
        Err(error) => finish(given_up(plan, cache), Err(KmsAeadError::of_backend(error))),
    }
}

/// The backend has answered a request to wrap `key`.
pub open spec fn key_wrapped(
    plan: KeyPlanView,
    key: Seq<u8>,
    answer: Result<Seq<u8>, BackendError>,
    cache: CacheView,
) -> StepView {
    match answer {
        Ok(wrapped) => {
            let pair = SessionKeyPairView { key, wrapped };
            match plan {
                KeyPlanView::Current(purpose) => proceed(purpose, pair, CacheView::installed(pair)),
                KeyPlanView::Replacement { previous } => finish(
                    CacheView::installed(pair),
                    Ok(OutcomeView::Rotated { previous, current: wrapped }),
                ),
                KeyPlanView::OneOff { aad, plain_text } => StepView {
                    operation: OperationView::Encrypting { session_key: Some(wrapped) },
                    cache,
                    action: ActionView::Encrypt { aad, plain_text, key },
                },
            }
        },
        Err(error) => finish(given_up(plan, cache), Err(KmsAeadError::of_backend(error))),
    }
}

/// The backend has answered a request to unwrap a key.
pub open spec fn key_unwrapped(
    aad: Seq<u8>,
    cipher_text: Seq<u8>,
    session_key: Option<Seq<u8>>,
    answer: Result<Seq<u8>, BackendError>,
    cache: CacheView,
) -> StepView {
    match answer {
        Ok(key) => StepView {
            operation: OperationView::Decrypting { session_key },
            cache,
            action: ActionView::Decrypt { aad, cipher_text, key },
        },
        Err(error) => finish(cache, Err(KmsAeadError::of_backend(error))),
    }
}

/// The cipher has answered a request to seal a value.
pub open spec fn value_encrypted(
    session_key: Option<Seq<u8>>,
    answer: Option<Seq<u8>>,
    cache: CacheView,
) -> StepView {
    match answer {
        Some(cipher_text) => finish(
            cache,
            Ok(
                match session_key {
                    Some(session_key) => OutcomeView::Sealed { cipher_text, session_key },
                    None => OutcomeView::CipherText(cipher_text),
                },
            ),
        ),
        None => finish(cache, Err(KmsAeadError::EncryptionFailure)),
    }
}

/// The cipher has answered a request to open a ciphertext.
pub open spec fn value_decrypted(
    session_key: Option<Seq<u8>>,
    answer: Option<Seq<u8>>,
    cache: CacheView,
) -> StepView {
    match answer {
        Some(plain_text) => finish(
            cache,
            Ok(
                match session_key {
                    Some(session_key) => OutcomeView::Opened { plain_text, session_key },
                    None => OutcomeView::PlainText(plain_text),
                },
            ),
        ),
        None => finish(cache, Err(KmsAeadError::AuthenticationFailure)),
    }
}

/// The transition function. An event that is not the answer the operation
/// waits for changes nothing.
pub open spec fn step(operation: OperationView, cache: CacheView, event: EventView) -> StepView {
    match (operation, event) {
        (OperationView::Ready(request), EventView::Resume) => begin(request, cache),
        (OperationView::Generating(plan), EventView::KeyGenerated(answer)) => key_generated(
            plan,
            answer,
            cache,
        ),
        (OperationView::Wrapping(plan, key), EventView::Wrapped(answer)) => key_wrapped(
            plan,
            key,
            answer,
            cache,
        ),
        (
            OperationView::Unwrapping { aad, cipher_text, session_key },
            EventView::Unwrapped(answer),
        ) => key_unwrapped(aad, cipher_text, session_key, answer, cache),
        (OperationView::Encrypting { session_key }, EventView::Encrypted(answer)) => value_encrypted(
            session_key,
            answer,
            cache,
        ),
        (OperationView::Decrypting { session_key }, EventView::Decrypted(answer)) => value_decrypted(
            session_key,
            answer,
            cache,
        ),
        _ => stay(operation, cache),
    }
}

} // verus!
