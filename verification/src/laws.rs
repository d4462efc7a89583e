//! What holds of the protocol across operations, proved of the transition
//! function.
//!
//! The executable [`crate::protocol::Operation::step`] computes exactly
//! [`step`], so what is proved here of `step` and of [`run`] holds of every
//! run of the code.
use crate::contract::{law_operation_contract, law_operation_outcome};
use crate::errors::KmsAeadError;
use crate::model::{
    finish, run, step, ActionView, CacheView, Collaborators, CurrentKeyUseView, EventView,
    KeyPlanView, OperationView, OutcomeView, RequestView,
};
use vstd::prelude::*;

verus! {

/// Round trip. A value that `encrypt_value` has sealed under a key and
/// associated data is what `decrypt_value` gives for the ciphertext under the
/// same key and associated data.
pub proof fn law_round_trip(
    world: Collaborators,
    aad: Seq<u8>,
    plain_text: Seq<u8>,
    session_key: Seq<u8>,
    cache: CacheView,
    sealing: Seq<EventView>,
    cipher_text: Seq<u8>,
    later_cache: CacheView,
    opening: Seq<EventView>,
    result: Result<OutcomeView, KmsAeadError>,
)
    requires
        world.faithful(OperationView::encrypt_value(aad, plain_text, session_key), cache, sealing),
        run(
            OperationView::encrypt_value(aad, plain_text, session_key),
            cache,
            sealing,
        ).completes_with(OutcomeView::CipherText(cipher_text)),
        world.faithful(
            OperationView::decrypt_value(aad, cipher_text, session_key),
            later_cache,
            opening,
        ),
        run(OperationView::decrypt_value(aad, cipher_text, session_key), later_cache, opening).action
            == ActionView::Done(result),
    ensures
        result == Ok::<OutcomeView, KmsAeadError>(OutcomeView::PlainText(plain_text)),
{
    law_operation_contract(
        world,
        RequestView::EncryptValue { aad, plain_text, session_key },
        cache,
        sealing,
        Ok(OutcomeView::CipherText(cipher_text)),
    );
    law_operation_contract(
        world,
        RequestView::DecryptValue { aad, cipher_text, session_key },
        later_cache,
        opening,
        result,
    );
}

/// Authentication. Where the cipher does not accept a ciphertext under a key
/// and associated data (as it must not when any of the three is other than
/// what the value was sealed with), `decrypt_value` fails with
/// `AuthenticationFailure` and gives no value.
pub proof fn law_authentication(
    world: Collaborators,
    aad: Seq<u8>,
    cipher_text: Seq<u8>,
    session_key: Seq<u8>,
    cache: CacheView,
    opening: Seq<EventView>,
    result: Result<OutcomeView, KmsAeadError>,
)
    requires
        (world.open)(session_key, aad, cipher_text) is None,
        world.faithful(OperationView::decrypt_value(aad, cipher_text, session_key), cache, opening),
        run(OperationView::decrypt_value(aad, cipher_text, session_key), cache, opening).action
            == ActionView::Done(result),
    ensures
        result == Err::<OutcomeView, KmsAeadError>(KmsAeadError::AuthenticationFailure),
{
    law_operation_contract(
        world,
        RequestView::DecryptValue { aad, cipher_text, session_key },
        cache,
        opening,
        result,
    );
}

/// Authentication, with a wrapped key. Where the cipher does not accept a
/// ciphertext under the key that a reference unwraps to, and the associated
/// data, `decrypt_value_with_key` fails with `AuthenticationFailure` and
/// gives no value. So it is when a ciphertext that was sealed under one key
/// is opened with the reference of another.
pub proof fn law_authentication_with_key(
    world: Collaborators,
    aad: Seq<u8>,
    cipher_text: Seq<u8>,
    encrypted_session_key: Seq<u8>,
    key: Seq<u8>,
    cache: CacheView,
    opening: Seq<EventView>,
    result: Result<OutcomeView, KmsAeadError>,
)
    requires
        world.wraps(key, encrypted_session_key),
        (world.open)(key, aad, cipher_text) is None,
        world.faithful(
            OperationView::decrypt_value_with_key(aad, cipher_text, encrypted_session_key),
            cache,
            opening,
        ),
        run(
            OperationView::decrypt_value_with_key(aad, cipher_text, encrypted_session_key),
            cache,
            opening,
        ).action == ActionView::Done(result),
    ensures
        result == Err::<OutcomeView, KmsAeadError>(KmsAeadError::AuthenticationFailure),
{
    law_operation_contract(
        world,
        RequestView::DecryptValueWithKey { aad, cipher_text, encrypted_session_key },
        cache,
        opening,
        result,
    );
}

/// No value is made up. Whenever a step gives out a plaintext, the event of
/// that step was the cipher's answer with that very plaintext; and whenever
/// the cipher's answer is that it does not accept the ciphertext, the
/// operation that waits for it ends with `AuthenticationFailure`.
pub proof fn law_plain_text_is_the_ciphers(operation: OperationView, cache: CacheView, event: EventView)
    ensures
        match step(operation, cache, event).action {
            ActionView::Done(Ok(OutcomeView::PlainText(plain_text))) => event
                == EventView::Decrypted(Some(plain_text)),
            ActionView::Done(Ok(OutcomeView::Opened { plain_text, session_key })) => event
                == EventView::Decrypted(Some(plain_text)),
            _ => true,
        },
        operation is Decrypting && event == EventView::Decrypted(None) ==> step(
            operation,
            cache,
            event,
        ).fails_with(KmsAeadError::AuthenticationFailure),
{
}

/// Current-key stability. Two calls of `encrypt_value_with_current_key`, one
/// after the other with nothing between them, report the same wrapped key,
/// whatever the cipher and the backend answer.
pub proof fn law_current_key_stability(
    cache: CacheView,
    aad: Seq<u8>,
    plain_text: Seq<u8>,
    sealing: Seq<EventView>,
    cipher_text: Seq<u8>,
    session_key: Seq<u8>,
    between: CacheView,
    next_aad: Seq<u8>,
    next_plain_text: Seq<u8>,
    next_sealing: Seq<EventView>,
    next_cipher_text: Seq<u8>,
    next_session_key: Seq<u8>,
)
    requires
        run(OperationView::encrypt_value_with_current_key(aad, plain_text), cache, sealing)
            == finish(between, Ok(OutcomeView::Sealed { cipher_text, session_key })),
        run(
            OperationView::encrypt_value_with_current_key(next_aad, next_plain_text),
            between,
            next_sealing,
        ).completes_with(
            OutcomeView::Sealed { cipher_text: next_cipher_text, session_key: next_session_key },
        ),
    ensures
        next_session_key == session_key,
{
    law_operation_outcome(
        RequestView::WithCurrentKey(CurrentKeyUseView::Encrypt { aad, plain_text }),
        cache,
        sealing,
        Ok(OutcomeView::Sealed { cipher_text, session_key }),
    );
    law_operation_outcome(
        RequestView::WithCurrentKey(
            CurrentKeyUseView::Encrypt { aad: next_aad, plain_text: next_plain_text },
        ),
        between,
        next_sealing,
        Ok(OutcomeView::Sealed { cipher_text: next_cipher_text, session_key: next_session_key }),
    );
}

/// Rotation isolation. Let a value be sealed under the current key, and the
/// key then be rotated. The rotation reports as the previous key the one
/// that was reported with the ciphertext; `decrypt_value_with_key` with that
/// reference still gives the value; and the next
/// `encrypt_value_with_current_key` reports the key that the rotation
/// reported as the new one. Honest answers are asked of the cipher and the
/// backend only where the value is sealed and where it is opened.
pub proof fn law_rotation_isolation(
    world: Collaborators,
    cache: CacheView,
    aad: Seq<u8>,
    plain_text: Seq<u8>,
    sealing: Seq<EventView>,
    cipher_text: Seq<u8>,
    session_key: Seq<u8>,
    sealed: CacheView,
    rotating: Seq<EventView>,
    previous: Seq<u8>,
    current: Seq<u8>,
    rotated: CacheView,
    opening: Seq<EventView>,
    result: Result<OutcomeView, KmsAeadError>,
    next_aad: Seq<u8>,
    next_plain_text: Seq<u8>,
    next_sealing: Seq<EventView>,
    next_cipher_text: Seq<u8>,
    next_session_key: Seq<u8>,
)
    requires
        world.coherent(cache),
        world.faithful(OperationView::encrypt_value_with_current_key(aad, plain_text), cache, sealing),
        run(OperationView::encrypt_value_with_current_key(aad, plain_text), cache, sealing)
            == finish(
            sealed,
            Ok(OutcomeView::Sealed { cipher_text, session_key }),
        ),
        run(OperationView::rotate(), sealed, rotating) == finish(
            rotated,
            Ok(OutcomeView::Rotated { previous, current }),
        ),
        world.faithful(
            OperationView::decrypt_value_with_key(aad, cipher_text, previous),
            rotated,
            opening,
        ),
        run(OperationView::decrypt_value_with_key(aad, cipher_text, previous), rotated, opening).action
            == ActionView::Done(result),
        run(
            OperationView::encrypt_value_with_current_key(next_aad, next_plain_text),
            rotated,
            next_sealing,
        ).completes_with(
            OutcomeView::Sealed { cipher_text: next_cipher_text, session_key: next_session_key },
        ),
    ensures
        previous == session_key,
        result == Ok::<OutcomeView, KmsAeadError>(OutcomeView::PlainText(plain_text)),
        next_session_key == current,
{
    law_operation_contract(
        world,
        RequestView::WithCurrentKey(CurrentKeyUseView::Encrypt { aad, plain_text }),
        cache,
        sealing,
        Ok(OutcomeView::Sealed { cipher_text, session_key }),
    );
    law_operation_outcome(
        RequestView::WithCurrentKey(CurrentKeyUseView::Rotate),
        sealed,
        rotating,
        Ok(OutcomeView::Rotated { previous, current }),
    );
    law_operation_contract(
        world,
        RequestView::DecryptValueWithKey {
            aad,
            cipher_text,
            encrypted_session_key: previous,
        },
        rotated,
        opening,
        result,
    );
    law_operation_outcome(
        RequestView::WithCurrentKey(
            CurrentKeyUseView::Encrypt { aad: next_aad, plain_text: next_plain_text },
        ),
        rotated,
        next_sealing,
        Ok(OutcomeView::Sealed { cipher_text: next_cipher_text, session_key: next_session_key }),
    );
}

/// One-off key isolation. Two calls of `encrypt_value_with_new_session_key`,
/// be it for the same value and associated data, report different wrapped
/// keys, provided that the source of random bytes gave them different keys,
/// or that the backend wrapped one key in two ways. (Where the same key is
/// generated twice and wrapped twice alike, the two calls cannot but report
/// the same.)
pub proof fn law_one_off_key_isolation(
    world: Collaborators,
    aad: Seq<u8>,
    plain_text: Seq<u8>,
    cache: CacheView,
    key: Seq<u8>,
    wrapped: EventView,
    sealed: EventView,
    cipher_text: Seq<u8>,
    session_key: Seq<u8>,
    other_cache: CacheView,
    other_key: Seq<u8>,
    other_wrapped: EventView,
    other_sealed: EventView,
    other_cipher_text: Seq<u8>,
    other_session_key: Seq<u8>,
)
    requires
        key != other_key || wrapped != other_wrapped,
        world.answers(
            OperationView::encrypt_value_with_new_session_key(aad, plain_text).start(cache).on(
                EventView::KeyGenerated(Ok(key)),
            ).action,
            wrapped,
        ),
        OperationView::encrypt_value_with_new_session_key(aad, plain_text).start(cache).on(
            EventView::KeyGenerated(Ok(key)),
        ).on(wrapped).on(sealed).completes_with(OutcomeView::Sealed { cipher_text, session_key }),
        world.answers(
            OperationView::encrypt_value_with_new_session_key(aad, plain_text).start(other_cache).on(
                EventView::KeyGenerated(Ok(other_key)),
            ).action,
            other_wrapped,
        ),
        OperationView::encrypt_value_with_new_session_key(aad, plain_text).start(other_cache).on(
            EventView::KeyGenerated(Ok(other_key)),
        ).on(other_wrapped).on(other_sealed).completes_with(
            OutcomeView::Sealed { cipher_text: other_cipher_text, session_key: other_session_key },
        ),
    ensures
        session_key != other_session_key,
{
}

/// The envelope round trip. A value that `encrypt_value_with_current_key`
/// has sealed is what `decrypt_value_with_key` gives for the ciphertext and
/// the wrapped key that were reported, whatever has become of the cache
/// since.
pub proof fn law_envelope_round_trip(
    world: Collaborators,
    cache: CacheView,
    aad: Seq<u8>,
    plain_text: Seq<u8>,
    sealing: Seq<EventView>,
    cipher_text: Seq<u8>,
    session_key: Seq<u8>,
    later_cache: CacheView,
    opening: Seq<EventView>,
    result: Result<OutcomeView, KmsAeadError>,
)
    requires
        world.coherent(cache),
        world.faithful(OperationView::encrypt_value_with_current_key(aad, plain_text), cache, sealing),
        run(
            OperationView::encrypt_value_with_current_key(aad, plain_text),
            cache,
            sealing,
        ).completes_with(OutcomeView::Sealed { cipher_text, session_key }),
        world.faithful(
            OperationView::decrypt_value_with_key(aad, cipher_text, session_key),
            later_cache,
            opening,
        ),
        run(
            OperationView::decrypt_value_with_key(aad, cipher_text, session_key),
            later_cache,
            opening,
        ).action == ActionView::Done(result),
    ensures
        result == Ok::<OutcomeView, KmsAeadError>(OutcomeView::PlainText(plain_text)),
{
    law_operation_contract(
        world,
        RequestView::WithCurrentKey(CurrentKeyUseView::Encrypt { aad, plain_text }),
        cache,
        sealing,
        Ok(OutcomeView::Sealed { cipher_text, session_key }),
    );
    law_operation_contract(
        world,
        RequestView::DecryptValueWithKey {
            aad,
            cipher_text,
            encrypted_session_key: session_key,
        },
        later_cache,
        opening,
        result,
    );
}

/// The envelope round trip with a one-off key. A value that
/// `encrypt_value_with_new_session_key` has sealed is what
/// `decrypt_value_with_key` gives for the ciphertext and the wrapped key
/// that were reported.
pub proof fn law_one_off_round_trip(
    world: Collaborators,
    cache: CacheView,
    aad: Seq<u8>,
    plain_text: Seq<u8>,
    sealing: Seq<EventView>,
    cipher_text: Seq<u8>,
    session_key: Seq<u8>,
    later_cache: CacheView,
    opening: Seq<EventView>,
    result: Result<OutcomeView, KmsAeadError>,
)
    requires
        world.faithful(
            OperationView::encrypt_value_with_new_session_key(aad, plain_text),
            cache,
            sealing,
        ),
        run(
            OperationView::encrypt_value_with_new_session_key(aad, plain_text),
            cache,
            sealing,
        ).completes_with(OutcomeView::Sealed { cipher_text, session_key }),
        world.faithful(
            OperationView::decrypt_value_with_key(aad, cipher_text, session_key),
            later_cache,
            opening,
        ),
        run(
            OperationView::decrypt_value_with_key(aad, cipher_text, session_key),
            later_cache,
            opening,
        ).action == ActionView::Done(result),
    ensures
        result == Ok::<OutcomeView, KmsAeadError>(OutcomeView::PlainText(plain_text)),
{
    law_operation_contract(
        world,
        RequestView::EncryptValueWithNewSessionKey { aad, plain_text },
        cache,
        sealing,
        Ok(OutcomeView::Sealed { cipher_text, session_key }),
    );
    law_operation_contract(
        world,
        RequestView::DecryptValueWithKey {
            aad,
            cipher_text,
            encrypted_session_key: session_key,
        },
        later_cache,
        opening,
        result,
    );
}

/// Whether `outcome` is of the kind that the operation asked for by
/// `request` ends with.
pub open spec fn kind_fits(request: RequestView, outcome: OutcomeView) -> bool {
    match request {
        RequestView::EncryptValue { .. } => outcome is CipherText,
        RequestView::DecryptValue { .. } => outcome is PlainText,
        RequestView::EncryptValueWithNewSessionKey { .. } => outcome is Sealed,
        RequestView::DecryptValueWithKey { .. } => outcome is PlainText,
        RequestView::WithCurrentKey(CurrentKeyUseView::Hand) => outcome is CurrentKey,
        RequestView::WithCurrentKey(CurrentKeyUseView::Encrypt { .. }) => outcome is Sealed,
        RequestView::WithCurrentKey(CurrentKeyUseView::Decrypt { .. }) => outcome is Opened,
        RequestView::WithCurrentKey(CurrentKeyUseView::Rotate) => outcome is Rotated,
    }
}

/// Whether `operation` is a state that an operation asked for by `request`
/// can be in.
pub open spec fn begun_for(request: RequestView, operation: OperationView) -> bool {
    match operation {
        OperationView::Ready(pending) => pending == request,
        OperationView::Generating(plan) => planned_for(request, plan),
        OperationView::Wrapping(plan, _) => planned_for(request, plan),
        OperationView::Unwrapping { session_key: None, .. } => request is DecryptValueWithKey,
        OperationView::Unwrapping { session_key: Some(_), .. } => request
            matches RequestView::WithCurrentKey(CurrentKeyUseView::Decrypt { .. }),
        OperationView::Encrypting { session_key: None } => request is EncryptValue,
        OperationView::Encrypting { session_key: Some(_) } => request
            is EncryptValueWithNewSessionKey || request matches RequestView::WithCurrentKey(
            CurrentKeyUseView::Encrypt { .. },
        ),
        OperationView::Decrypting { session_key: None } => request is DecryptValue || request
            is DecryptValueWithKey,
        OperationView::Decrypting { session_key: Some(_) } => request
            matches RequestView::WithCurrentKey(CurrentKeyUseView::Decrypt { .. }),
        OperationView::Finished => true,
    }
}

/// Whether a key with plan `plan` can be on its way for an operation asked
/// for by `request`.
pub open spec fn planned_for(request: RequestView, plan: KeyPlanView) -> bool {
    match plan {
        KeyPlanView::Current(purpose) => request == RequestView::WithCurrentKey(purpose),
        KeyPlanView::Replacement { .. } => request == RequestView::WithCurrentKey(
            CurrentKeyUseView::Rotate,
        ),
        KeyPlanView::OneOff { .. } => request is EncryptValueWithNewSessionKey,
    }
}

/// Every operation ends with a result of its own kind, whatever events it is
/// given and whatever becomes of the cache between its steps: sealing with a
/// key of the caller's gives a ciphertext, sealing with a managed key gives a
/// ciphertext and a wrapped key, and so on for each operation.
pub proof fn law_result_is_of_the_kind_asked(
    request: RequestView,
    operation: OperationView,
    cache: CacheView,
    event: EventView,
)
    requires
        begun_for(request, operation),
    ensures
        begun_for(request, step(operation, cache, event).operation),
        step(operation, cache, event).action matches ActionView::Done(Ok(outcome)) ==> kind_fits(
            request,
            outcome,
        ),
{
}

/// A failure changes no key. Whenever a step ends an operation with an
/// error, the cache holds the pair that it held before the step: a rotation
/// that fails leaves the previous key in place.
pub proof fn law_failure_keeps_current_key(operation: OperationView, cache: CacheView, event: EventView)
    requires
        step(operation, cache, event).action matches ActionView::Done(Err(_)),
    ensures
        step(operation, cache, event).cache.current == cache.current,
{
}

/// The pair in the cache stays a key with a wrapped form of it, whatever
/// operation takes a step, as long as the backend's answer to a request to
/// wrap a key is a wrapped form of that key.
pub proof fn law_cache_stays_coherent(
    world: Collaborators,
    operation: OperationView,
    cache: CacheView,
    event: EventView,
)
    requires
        world.coherent(cache),
        match operation {
            OperationView::Wrapping(_, key) => event is Wrapped ==> world.answers(
                ActionView::Wrap { key },
                event,
            ),
            _ => true,
        },
    ensures
        world.coherent(step(operation, cache, event).cache),
{
}

/// The key and its wrapped form are taken together. The key that an
/// operation hands to the cipher and the wrapped key that it will report
/// are the two halves of the pair that the cache holds at that step.
pub proof fn law_snapshot_is_one_pair(
    aad: Seq<u8>,
    plain_text: Seq<u8>,
    cache: CacheView,
)
    requires
        cache.current is Some,
    ensures
        OperationView::encrypt_value_with_current_key(aad, plain_text).start(cache).action
            == (ActionView::Encrypt { aad, plain_text, key: cache.current->0.key }),
        OperationView::encrypt_value_with_current_key(aad, plain_text).start(cache).operation
            == (OperationView::Encrypting { session_key: Some(cache.current->0.wrapped) }),
        OperationView::encrypt_value_with_current_key(aad, plain_text).start(cache).cache == cache,
{
}

} // verus!
