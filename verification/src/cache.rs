//! The session key cache: the one piece of state that operations share.
use crate::model::{CacheView, OperationView, SessionKeyPairView};
use crate::protocol::{CurrentKeyUse, Operation, Request};
use crate::values::{DataEncryptionKey, EncryptedDataEncryptionKey};
use vstd::prelude::*;

verus! {

/// A session key in the clear together with its wrapped form. The two are
/// set together and never apart.
#[derive(Debug)]
pub struct SessionKeyPair {
    pub key: DataEncryptionKey,
    pub wrapped: EncryptedDataEncryptionKey,
}

impl View for SessionKeyPair {
    type V = SessionKeyPairView;

    open spec fn view(&self) -> SessionKeyPairView {
        SessionKeyPairView { key: self.key@, wrapped: self.wrapped@ }
    }
}

impl Clone for SessionKeyPair {
    /// A second pair with the same bytes.
    fn clone(&self) -> (copy: Self)
        ensures
            copy@ == self@,
    {
        SessionKeyPair { key: self.key.clone(), wrapped: self.wrapped.clone() }
    }
}

/// Holds the current session key pair, or none, and remembers whether an
/// operation is generating and wrapping the key that will take its place.
///
/// Only [`Operation::step`] changes a cache. A driver that serves several
/// callers gives each call an operation of its own and lets them share one
/// cache, taking whatever lock it uses around each single step.
#[derive(Debug)]
pub struct SessionKeyCache {
    current: Option<SessionKeyPair>,
    busy: bool,
}

impl View for SessionKeyCache {
    type V = CacheView;

    closed spec fn view(&self) -> CacheView {
        CacheView {
            current: match self.current {
                Some(pair) => Some(pair@),
                None => None,
            },
            busy: self.busy,
        }
    }
}

impl SessionKeyCache {
    /// A cache that holds no key.
    pub fn new() -> (cache: Self)
        ensures
            cache@ == CacheView::empty(),
    {
        SessionKeyCache { current: None, busy: false }
    }

    /// Whether an operation holds the cache while it generates and wraps a
    /// key.
    pub fn is_busy(&self) -> (busy: bool)
        ensures
            busy == self@.busy,
    {
        self.busy
    }

    /// Whether the cache holds a pair.
    pub fn has_current(&self) -> (present: bool)
        ensures
            present == (self@.current is Some),
    {
        self.current.is_some()
    }

    /// A copy of the current pair, if there is one.
    pub fn current(&self) -> (pair: Option<SessionKeyPair>)
        ensures
            match pair {
                Some(pair) => self@.current == Some(pair@),
                None => self@.current is None,
            },
    {
        match &self.current {
            Some(pair) => Some(pair.clone()),
            None => None,
        }
    }

    /// A copy of the wrapped form of the current key, if there is one.
    pub fn current_session_key(&self) -> (wrapped: Option<EncryptedDataEncryptionKey>)
        ensures
            match wrapped {
                Some(wrapped) => self@.current matches Some(pair) && pair.wrapped == wrapped@,
                None => self@.current is None,
            },
    {
        match &self.current {
            Some(pair) => Some(pair.wrapped.clone()),
            None => None,
        }
    }

    /// The operation that returns the current pair, after generating and
    /// wrapping a key if the cache holds none.
    pub fn get_or_create_current() -> (operation: Operation)
        ensures
            operation@ == OperationView::get_or_create_current(),
    {
        Operation::ready(Request::WithCurrentKey(CurrentKeyUse::Hand))
    }

    /// The operation that replaces the current key by a new one and returns
    /// the wrapped forms of both. On a cache that holds no key it first
    /// creates one, which is then the previous key.
    pub fn rotate() -> (operation: Operation)
        ensures
            operation@ == OperationView::rotate(),
    {
        Operation::ready(Request::WithCurrentKey(CurrentKeyUse::Rotate))
    }

    /// Marks the cache as held.
    pub(crate) fn claim(&mut self)
        ensures
            final(self)@ == old(self)@.claimed(),
    {
        self.busy = true;
    }

    /// Marks the cache as free and leaves its key as it is.
    pub(crate) fn release(&mut self)
        ensures
            final(self)@ == old(self)@.released(),
    {
        self.busy = false;
    }

    /// Makes `pair` the current pair and marks the cache as free.
    pub(crate) fn install(&mut self, pair: SessionKeyPair)
        ensures
            final(self)@ == CacheView::installed(pair@),
    {
        self.current = Some(pair);
        self.busy = false;
    }
}

} // verus!
