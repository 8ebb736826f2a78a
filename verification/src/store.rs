//! What the gateway knows of the identity store.
//!
//! The store itself is an outside service. The gateway asks its caller to
//! look a subject up or to replace a subject's current token, and is told
//! what came of it.

use vstd::prelude::*;

verus! {

/// One identity, as the store holds it.
#[derive(Debug)]
pub struct IdentityRecord {
    /// The subject identity: the key of the record.
    pub subject: String,
    /// The stored password hash, a PHC string.
    pub password_hash: String,
    /// The role, where one is set.
    pub role: Option<String>,
    /// The one token that is valid now for this subject.
    pub current_token: Option<String>,
}

/// The mathematical value of an [`IdentityRecord`].
pub struct RecordView {
    pub subject: Seq<char>,
    pub password_hash: Seq<char>,
    pub role: Option<Seq<char>>,
    pub current_token: Option<Seq<char>>,
}

/// The mathematical value of an optional text.
pub open spec fn text_view(t: Option<String>) -> Option<Seq<char>> {
    match t {
        Some(s) => Some(s@),
        None => None,
    }
}

impl View for IdentityRecord {
    type V = RecordView;

    open spec fn view(&self) -> RecordView {
        RecordView {
            subject: self.subject@,
            password_hash: self.password_hash@,
            role: text_view(self.role),
            current_token: text_view(self.current_token),
        }
    }
}

/// What a lookup by subject came to.
#[derive(Debug)]
pub enum StoreLookup {
    /// The store holds this record for the subject.
    Found(IdentityRecord),
    /// The store holds no record for the subject.
    NotFound,
    /// The store did not answer in time, or failed.
    Unavailable,
}

/// The mathematical value of a [`StoreLookup`].
pub enum LookupView {
    Found(RecordView),
    NotFound,
    Unavailable,
}

impl View for StoreLookup {
    type V = LookupView;

    open spec fn view(&self) -> LookupView {
        match self {
            StoreLookup::Found(r) => LookupView::Found(r@),
            StoreLookup::NotFound => LookupView::NotFound,
            StoreLookup::Unavailable => LookupView::Unavailable,
        }
    }
}

/// The store as a mathematical object: its records by subject.
pub type StoreModel = Map<Seq<char>, RecordView>;

/// The answer of a store in state `store` to a lookup of `subject`;
/// `reachable` says whether it answers at all.
pub open spec fn lookup_in(store: StoreModel, subject: Seq<char>, reachable: bool) -> LookupView {
    if !reachable {
        LookupView::Unavailable
    } else if store.dom().contains(subject) {
        LookupView::Found(store[subject])
    } else {
        LookupView::NotFound
    }
}

/// The store after `token` became the current token of `subject`. A subject
/// that the store does not hold is not created.
pub open spec fn with_current_token(store: StoreModel, subject: Seq<char>, token: Seq<char>) -> StoreModel {
    if store.dom().contains(subject) {
        store.insert(subject, RecordView { current_token: Some(token), ..store[subject] })
    } else {
        store
    }
}

/// A store is keyed by subject when each record sits under its own subject.
pub open spec fn keyed_by_subject(store: StoreModel) -> bool {
    forall|s: Seq<char>| store.dom().contains(s) ==> (#[trigger] store[s]).subject == s
}

} // verus!
