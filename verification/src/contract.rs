//! What each operation promises to the caller that runs it to its end.
//!
//! An operation is run alone here: between its steps nothing else changes
//! the cache. What holds when operations share a cache step by step is the
//! subject of [`crate::sharing`].
//!
//! The promise has two parts. The first, [`ensures_anyway`], holds whatever
//! the driver tells the operation. The second, [`ensures_honestly`], holds
//! when the driver's events are the answers of a cipher and a backend as
//! [`Collaborators`] describes them.
use crate::errors::KmsAeadError;
use crate::model::{
    run, ActionView, CacheView, Collaborators, CurrentKeyUseView, EventView, KeyPlanView,
    OperationView, OutcomeView, RequestView, SessionKeyPairView, StepView,
};
use vstd::prelude::*;

verus! {

/// Whether `error` is one that the backend's failures are reported as.
pub open spec fn from_backend(error: KmsAeadError) -> bool {
    error == KmsAeadError::BackendUnavailable || error == KmsAeadError::AccessDenied || error
        == KmsAeadError::InvalidKeyReference
}

/// How a cache that was `before` stands once an operation has taken `pair`
/// from it as the current pair: unchanged if it held a pair, and holding
/// `pair`, free, if it held none.
pub open spec fn serves(before: CacheView, after: CacheView, pair: SessionKeyPairView) -> bool {
    &&& after.current == Some(pair)
    &&& before.current is Some ==> after == before
    &&& before.current is None ==> after == CacheView::installed(pair)
}

/// What `get_or_create_current` promises: the pair that the cache held, the
/// cache being as it was; or, of a cache that held none, the pair that it
/// holds now; or the backend's error, the cache holding none as before.
pub open spec fn get_or_create_current_ensures(
    before: CacheView,
    after: CacheView,
    result: Result<OutcomeView, KmsAeadError>,
) -> bool {
    match result {
        Ok(OutcomeView::CurrentKey(pair)) => serves(before, after, pair),
        Ok(_) => false,
        Err(error) => from_backend(error) && before.current is None && after == before,
    }
}

/// What `rotate` and `rotate_session_key` promise: the cache is free; on
/// success it holds the pair whose wrapped form is reported as the new one,
/// and what is reported as the previous one is the wrapped form of the pair
/// that the cache held, if it held one; on failure a cache that held a pair
/// is as it was.
pub open spec fn rotate_ensures(
    before: CacheView,
    after: CacheView,
    result: Result<OutcomeView, KmsAeadError>,
) -> bool {
    &&& !after.busy
    &&& match result {
        Ok(OutcomeView::Rotated { previous, current }) => {
            &&& after.current matches Some(pair) && pair.wrapped == current
            &&& before.current matches Some(pair) ==> pair.wrapped == previous
        },
        Ok(_) => false,
        Err(error) => from_backend(error) && (before.current is Some ==> after == before),
    }
}

/// What `encrypt_value_with_current_key` promises of the cache and of the
/// wrapped key it reports: the key is the wrapped form of the pair that the
/// cache holds, which is the pair it held before if it held one.
pub open spec fn encrypt_value_with_current_key_ensures(
    before: CacheView,
    after: CacheView,
    result: Result<OutcomeView, KmsAeadError>,
) -> bool {
    match result {
        Ok(OutcomeView::Sealed { cipher_text, session_key }) => after.current matches Some(pair)
            && serves(before, after, pair) && pair.wrapped == session_key,
        Ok(_) => false,
        Err(error) => if error == KmsAeadError::EncryptionFailure {
            after.current matches Some(pair) && serves(before, after, pair)
        } else {
            from_backend(error) && before.current is None && after == before
        },
    }
}

/// What `decrypt_value_with_current_key` promises of the cache and of the
/// wrapped key it reports.
pub open spec fn decrypt_value_with_current_key_ensures(
    before: CacheView,
    after: CacheView,
    result: Result<OutcomeView, KmsAeadError>,
) -> bool {
    &&& match after.current {
        Some(pair) => serves(before, after, pair),
        None => after == before && (result matches Err(error) && from_backend(error)),
    }
    &&& match result {
        Ok(OutcomeView::Opened { plain_text, session_key }) => after.current matches Some(pair)
            && pair.wrapped == session_key,
        Ok(_) => false,
        Err(error) => error == KmsAeadError::AuthenticationFailure || from_backend(error),
    }
}

/// What the operation that was asked for by `request` promises whatever
/// its driver tells it: of what kind its result is, with which errors it can
/// fail, and how its result and the cache after it stand to the cache before
/// it.
pub open spec fn ensures_anyway(
    request: RequestView,
    before: CacheView,
    after: CacheView,
    result: Result<OutcomeView, KmsAeadError>,
) -> bool {
    match request {
        RequestView::EncryptValue { .. } => after == before && match result {
            Ok(outcome) => outcome is CipherText,
            Err(error) => error == KmsAeadError::EncryptionFailure,
        },
        RequestView::DecryptValue { .. } => after == before && match result {
            Ok(outcome) => outcome is PlainText,
            Err(error) => error == KmsAeadError::AuthenticationFailure,
        },
        RequestView::EncryptValueWithNewSessionKey { .. } => after == before && match result {
            Ok(outcome) => outcome is Sealed,
            Err(error) => error == KmsAeadError::EncryptionFailure || from_backend(error),
        },
        RequestView::DecryptValueWithKey { .. } => after == before && match result {
            Ok(outcome) => outcome is PlainText,
            Err(error) => error == KmsAeadError::AuthenticationFailure || from_backend(error),
        },
        RequestView::WithCurrentKey(CurrentKeyUseView::Hand) => get_or_create_current_ensures(
            before,
            after,
            result,
        ),
        RequestView::WithCurrentKey(
            CurrentKeyUseView::Encrypt { .. },
        ) => encrypt_value_with_current_key_ensures(before, after, result),
        RequestView::WithCurrentKey(
            CurrentKeyUseView::Decrypt { .. },
        ) => decrypt_value_with_current_key_ensures(before, after, result),
        RequestView::WithCurrentKey(CurrentKeyUseView::Rotate) => rotate_ensures(
            before,
            after,
            result,
        ),
    }
}

/// Where an operation that generates and wraps a key stands to its cache.
pub open spec fn plan_follows(request: RequestView, before: CacheView, plan: KeyPlanView, cache: CacheView) -> bool {
    match plan {
        KeyPlanView::Current(purpose) => {
            &&& request == RequestView::WithCurrentKey(purpose)
            &&& before.current is None
            &&& !before.busy
            &&& cache == before.claimed()
        },
        KeyPlanView::Replacement { previous } => {
            &&& request == RequestView::WithCurrentKey(CurrentKeyUseView::Rotate)
            &&& cache.busy
            &&& cache.current matches Some(pair) && pair.wrapped == previous
            &&& before.current is Some ==> !before.busy && cache == before.claimed()
        },
        KeyPlanView::OneOff { aad, plain_text } => {
            &&& request == RequestView::EncryptValueWithNewSessionKey { aad, plain_text }
            &&& cache == before
        },
    }
}

/// Whether an operation that will report `wrapped` has it from the pair in
/// the cache.
pub open spec fn holds_pair(before: CacheView, wrapped: Seq<u8>, cache: CacheView) -> bool {
    cache.current matches Some(pair) && pair.wrapped == wrapped && serves(before, cache, pair)
}

/// Where an operation that was asked for by `request` and begun on the
/// cache `before` can stand after some steps of its own, whatever its driver
/// has told it.
pub open spec fn follows(request: RequestView, before: CacheView, now: StepView) -> bool {
    match now.operation {
        OperationView::Ready(pending) => pending == request && now.cache == before,
        OperationView::Generating(plan) => plan_follows(request, before, plan, now.cache),
        OperationView::Wrapping(plan, _) => plan_follows(request, before, plan, now.cache),
        OperationView::Unwrapping { aad, cipher_text, session_key: None } => {
            &&& request matches RequestView::DecryptValueWithKey { aad: a, cipher_text: c, .. }
            &&& a == aad && c == cipher_text
            &&& now.cache == before
        },
        OperationView::Unwrapping { aad, cipher_text, session_key: Some(wrapped) } => {
            &&& request == RequestView::WithCurrentKey(
                CurrentKeyUseView::Decrypt { aad, cipher_text },
            )
            &&& holds_pair(before, wrapped, now.cache)
        },
        OperationView::Encrypting { session_key: None } => request is EncryptValue && now.cache
            == before,
        OperationView::Encrypting { session_key: Some(wrapped) } => match request {
            RequestView::WithCurrentKey(CurrentKeyUseView::Encrypt { .. }) => holds_pair(
                before,
                wrapped,
                now.cache,
            ),
            RequestView::EncryptValueWithNewSessionKey { .. } => now.cache == before,
            _ => false,
        },
        OperationView::Decrypting { session_key: None } => (request is DecryptValue || request
            is DecryptValueWithKey) && now.cache == before,
        OperationView::Decrypting { session_key: Some(wrapped) } => {
            &&& request matches RequestView::WithCurrentKey(CurrentKeyUseView::Decrypt { .. })
            &&& holds_pair(before, wrapped, now.cache)
        },
        OperationView::Finished => now.action matches ActionView::Done(result) ==> ensures_anyway(
            request,
            before,
            now.cache,
            result,
        ),
    }
}

/// One step keeps the operation where it can stand.
proof fn lemma_step_follows(request: RequestView, before: CacheView, now: StepView, event: EventView)
    requires
        follows(request, before, now),
    ensures
        follows(request, before, now.on(event)),
{
}

/// Every run keeps the operation where it can stand.
proof fn lemma_run_follows(request: RequestView, before: CacheView, events: Seq<EventView>)
    ensures
        follows(request, before, run(OperationView::Ready(request), before, events)),
    decreases events.len(),
{
    if events.len() > 0 {
        lemma_run_follows(request, before, events.drop_last());
        lemma_step_follows(
            request,
            before,
            run(OperationView::Ready(request), before, events.drop_last()),
            events.last(),
        );
    }
}

/// What holds of every operation whatever its driver tells it. Let an
/// operation be begun on a cache and be given any events at all, and let
/// nothing else change the cache meanwhile. If a step ends the operation,
/// its result and the cache are as [`ensures_anyway`] says for what was
/// asked.
pub proof fn law_operation_outcome(
    request: RequestView,
    before: CacheView,
    events: Seq<EventView>,
    result: Result<OutcomeView, KmsAeadError>,
)
    requires
        run(OperationView::Ready(request), before, events).action == ActionView::Done(result),
    ensures
        ensures_anyway(
            request,
            before,
            run(OperationView::Ready(request), before, events).cache,
            result,
        ),
{
    lemma_run_follows(request, before, events);
}

/// What opening `cipher_text` with `key` and `aad` comes to: the value, or
/// `AuthenticationFailure`.
pub open spec fn opened(world: Collaborators, key: Seq<u8>, aad: Seq<u8>, cipher_text: Seq<u8>) -> Result<
    Seq<u8>,
    KmsAeadError,
> {
    match (world.open)(key, aad, cipher_text) {
        Some(plain_text) => Ok(plain_text),
        None => Err(KmsAeadError::AuthenticationFailure),
    }
}

/// What unwrapping `wrapped` and opening `cipher_text` with the key comes
/// to: the value, the backend's error, or `AuthenticationFailure`.
pub open spec fn unwrapped_and_opened(
    world: Collaborators,
    wrapped: Seq<u8>,
    aad: Seq<u8>,
    cipher_text: Seq<u8>,
) -> Result<Seq<u8>, KmsAeadError> {
    match (world.unwrap)(wrapped) {
        Ok(key) => opened(world, key, aad, cipher_text),
        Err(error) => Err(KmsAeadError::of_backend(error)),
    }
}

/// The result of an operation that gives a value alone.
pub open spec fn as_plain_text(value: Result<Seq<u8>, KmsAeadError>) -> Result<
    OutcomeView,
    KmsAeadError,
> {
    match value {
        Ok(plain_text) => Ok(OutcomeView::PlainText(plain_text)),
        Err(error) => Err(error),
    }
}

/// The result of an operation that gives a value and the wrapped form of the
/// key that opened it.
pub open spec fn as_opened(value: Result<Seq<u8>, KmsAeadError>, session_key: Seq<u8>) -> Result<
    OutcomeView,
    KmsAeadError,
> {
    match value {
        Ok(plain_text) => Ok(OutcomeView::Opened { plain_text, session_key }),
        Err(error) => Err(error),
    }
}

/// What the operation that was asked for by `request` promises when the
/// answers are honest: a ciphertext that it gives is one of the value it was
/// given, under the key it was given or the key whose wrapped form it
/// reports, and bound to the associated data it was given; and what an
/// operation that opens gives is what unwrapping and opening come to, for
/// the very ciphertext, associated data and key or wrapped key it was given.
pub open spec fn ensures_honestly(
    world: Collaborators,
    request: RequestView,
    after: CacheView,
    result: Result<OutcomeView, KmsAeadError>,
) -> bool {
    match request {
        RequestView::EncryptValue { aad, plain_text, session_key } => result matches Ok(
            OutcomeView::CipherText(cipher_text),
        ) ==> world.seals(session_key, aad, plain_text, cipher_text),
        RequestView::DecryptValue { aad, cipher_text, session_key } => result == as_plain_text(
            opened(world, session_key, aad, cipher_text),
        ),
        RequestView::EncryptValueWithNewSessionKey { aad, plain_text } => result matches Ok(
            OutcomeView::Sealed { cipher_text, session_key },
        ) ==> ((world.unwrap)(session_key) matches Ok(key) && world.seals(
            key,
            aad,
            plain_text,
            cipher_text,
        )),
        RequestView::DecryptValueWithKey {
            aad,
            cipher_text,
            encrypted_session_key,
        } => result == as_plain_text(
            unwrapped_and_opened(world, encrypted_session_key, aad, cipher_text),
        ),
        RequestView::WithCurrentKey(CurrentKeyUseView::Encrypt { aad, plain_text }) => result
            matches Ok(OutcomeView::Sealed { cipher_text, session_key }) ==> (
        after.current matches Some(pair) && world.seals(pair.key, aad, plain_text, cipher_text)),
        RequestView::WithCurrentKey(CurrentKeyUseView::Decrypt { aad, cipher_text }) => after.current
            matches Some(pair) ==> result == as_opened(
            unwrapped_and_opened(world, pair.wrapped, aad, cipher_text),
            pair.wrapped,
        ),
        RequestView::WithCurrentKey(CurrentKeyUseView::Hand) => true,
        RequestView::WithCurrentKey(CurrentKeyUseView::Rotate) => true,
    }
}

/// Whether the action of the last step is what an operation in its state
/// asks when every answer so far was honest.
pub open spec fn asks(world: Collaborators, request: RequestView, now: StepView) -> bool {
    match now.operation {
        OperationView::Ready(_) => now.action == ActionView::Wait,
        OperationView::Generating(_) => now.action == ActionView::GenerateKey,
        OperationView::Wrapping(_, key) => now.action == ActionView::Wrap { key },
        OperationView::Unwrapping { session_key, .. } => match request {
            RequestView::DecryptValueWithKey { encrypted_session_key, .. } => now.action
                == ActionView::Unwrap { wrapped: encrypted_session_key },
            _ => session_key matches Some(wrapped) && now.action == ActionView::Unwrap { wrapped },
        },
        OperationView::Encrypting { session_key } => match request {
            RequestView::EncryptValue { aad, plain_text, session_key } => now.action
                == ActionView::Encrypt { aad, plain_text, key: session_key },
            RequestView::WithCurrentKey(CurrentKeyUseView::Encrypt { aad, plain_text }) => now.cache.current
                matches Some(pair) && now.action == ActionView::Encrypt {
                aad,
                plain_text,
                key: pair.key,
            },
            RequestView::EncryptValueWithNewSessionKey { aad, plain_text } => {
                &&& session_key matches Some(wrapped)
                &&& (world.unwrap)(wrapped) matches Ok(key)
                &&& now.action == ActionView::Encrypt { aad, plain_text, key }
            },
            _ => false,
        },
        OperationView::Decrypting { session_key } => match request {
            RequestView::DecryptValue { aad, cipher_text, session_key } => now.action
                == ActionView::Decrypt { aad, cipher_text, key: session_key },
            RequestView::DecryptValueWithKey { aad, cipher_text, encrypted_session_key } => {
                &&& (world.unwrap)(encrypted_session_key) matches Ok(key)
                &&& now.action == ActionView::Decrypt { aad, cipher_text, key }
            },
            RequestView::WithCurrentKey(CurrentKeyUseView::Decrypt { aad, cipher_text }) => {
                &&& session_key matches Some(wrapped)
                &&& (world.unwrap)(wrapped) matches Ok(key)
                &&& now.action == ActionView::Decrypt { aad, cipher_text, key }
            },
            _ => false,
        },
        OperationView::Finished => now.action matches ActionView::Done(result) && ensures_honestly(
            world,
            request,
            now.cache,
            result,
        ),
    }
}

/// Where an operation that was asked for by `request` and begun on the
/// cache `before` can stand after some steps of its own, with honest
/// answers.
pub open spec fn tracks(world: Collaborators, request: RequestView, before: CacheView, now: StepView) -> bool {
    &&& follows(request, before, now)
    &&& asks(world, request, now)
    &&& world.coherent(before) ==> world.coherent(now.cache)
}

/// One step with an honest answer keeps the operation on track.
proof fn lemma_step_tracks(
    world: Collaborators,
    request: RequestView,
    before: CacheView,
    now: StepView,
    event: EventView,
)
    requires
        tracks(world, request, before, now),
        world.answers(now.action, event),
    ensures
        tracks(world, request, before, now.on(event)),
{
}

/// Every run with honest answers keeps the operation on track.
proof fn lemma_run_tracks(
    world: Collaborators,
    request: RequestView,
    before: CacheView,
    events: Seq<EventView>,
)
    requires
        world.faithful(OperationView::Ready(request), before, events),
    ensures
        tracks(world, request, before, run(OperationView::Ready(request), before, events)),
    decreases events.len(),
{
    if events.len() > 0 {
        lemma_run_tracks(world, request, before, events.drop_last());
        lemma_step_tracks(
            world,
            request,
            before,
            run(OperationView::Ready(request), before, events.drop_last()),
            events.last(),
        );
    }
}

/// The contract of every operation. Let an operation be begun on a cache,
/// let its driver give it honest answers, and let nothing else change the
/// cache meanwhile. If the operation comes to an end, its result and the
/// cache are as [`ensures_anyway`] and [`ensures_honestly`] say for what was
/// asked; and if the pair in the cache was a key with a wrapped form of it,
/// or there was none, that is still so.
pub proof fn law_operation_contract(
    world: Collaborators,
    request: RequestView,
    before: CacheView,
    events: Seq<EventView>,
    result: Result<OutcomeView, KmsAeadError>,
)
    requires
        world.faithful(OperationView::Ready(request), before, events),
        run(OperationView::Ready(request), before, events).action == ActionView::Done(result),
    ensures
        ensures_anyway(
            request,
            before,
            run(OperationView::Ready(request), before, events).cache,
            result,
        ),
        ensures_honestly(
            world,
            request,
            run(OperationView::Ready(request), before, events).cache,
            result,
        ),
        world.coherent(before) ==> world.coherent(
            run(OperationView::Ready(request), before, events).cache,
        ),
{
    lemma_run_tracks(world, request, before, events);
}

/// How many answers an operation still needs before it ends, at most.
pub open spec fn steps_left(operation: OperationView) -> nat {
    match operation {
        OperationView::Ready(_) => 5,
        OperationView::Generating(plan) => 2 + steps_after(plan),
        OperationView::Wrapping(plan, _) => 1 + steps_after(plan),
        OperationView::Unwrapping { .. } => 2,
        OperationView::Encrypting { .. } => 1,
        OperationView::Decrypting { .. } => 1,
        OperationView::Finished => 0,
    }
}

/// How many answers an operation still needs once its key is wrapped, at
/// most.
pub open spec fn steps_after(plan: KeyPlanView) -> nat {
    match plan {
        KeyPlanView::Current(CurrentKeyUseView::Hand) => 0,
        KeyPlanView::Current(CurrentKeyUseView::Encrypt { .. }) => 1,
        KeyPlanView::Current(CurrentKeyUseView::Decrypt { .. }) => 2,
        KeyPlanView::Current(CurrentKeyUseView::Rotate) => 2,
        KeyPlanView::Replacement { .. } => 0,
        KeyPlanView::OneOff { .. } => 1,
    }
}

/// Every operation ends. Let an operation be begun on a cache that no other
/// operation holds, and let its driver give it honest answers. Then it never
/// has to wait, each answer brings it nearer to its end, and it has ended
/// once it has had five events: the one that begins it and four answers,
/// which is what the longest operations need.
pub proof fn law_operation_ends(
    world: Collaborators,
    request: RequestView,
    before: CacheView,
    events: Seq<EventView>,
)
    requires
        !before.busy,
        world.faithful(OperationView::Ready(request), before, events),
        events.len() > 0,
    ensures
        run(OperationView::Ready(request), before, events).action != ActionView::Wait,
        steps_left(run(OperationView::Ready(request), before, events).operation) + events.len()
            <= 5,
    decreases events.len(),
{
    let earlier = events.drop_last();
    lemma_run_tracks(world, request, before, earlier);
    if earlier.len() > 0 {
        law_operation_ends(world, request, before, earlier);
    }
}

} // verus!
