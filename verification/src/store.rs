//! A model of the remote store, and what the client's operations achieve
//! against it.
//!
//! The model is the contract that the client relies on: documents live
//! under keys, every accepted write gives the document a revision, a write
//! over an existing document is accepted only with the document's current
//! revision, a creation only where nothing is stored, and a missing
//! document is reported as such.  An operation of the client is run
//! against the model by handing each of its requests to the model and the
//! model's answer back to the operation.

use crate::auth::{IdentityState, UserView};
use crate::db::{
    delete_user_next, delete_user_start, document_of, put_document_next, put_document_start,
    put_user_next, put_user_start, user_of, DocumentView, ProgressView, PutDocumentView,
    PutUserView, ReplyView, RequestView, StoreError, UserPayloadView,
};
use serde_json::Value;
use vstd::prelude::*;

verus! {

/// A project document in the store.
pub struct StoredDocument {
    pub rev: Seq<char>,
    pub data: Value,
}

/// A user record in the store.
pub struct StoredUser {
    pub rev: Seq<char>,
    pub user: UserView,
}

/// What the store holds.
pub struct StoreModel {
    pub projects: Map<Seq<char>, StoredDocument>,
    pub users: Map<Seq<char>, StoredUser>,
}

impl StoreModel {
    /// What the store holds after `request`, and what it answers.  `fresh`
    /// is the revision that the store gives to what is written, where it
    /// accepts a write.
    pub open spec fn serve(self, request: RequestView, fresh: Seq<char>) -> (
        StoreModel,
        Result<ReplyView, StoreError>,
    ) {
        match request {
            RequestView::GetDocument { id } => if self.projects.contains_key(id) {
                (
                    self,
                    Ok(
                        ReplyView::Document(
                            DocumentView {
                                id: Some(id),
                                rev: Some(self.projects[id].rev),
                                data: self.projects[id].data,
                            },
                        ),
                    ),
                )
            } else {
                (self, Err(StoreError::NotFound))
            },
            RequestView::UpdateDocument { id, body } => if self.projects.contains_key(id)
                && body.rev == Some(self.projects[id].rev) {
                (
                    StoreModel {
                        projects: self.projects.insert(
                            id,
                            StoredDocument { rev: fresh, data: body.data },
                        ),
                        ..self
                    },
                    Ok(ReplyView::Accepted),
                )
            } else {
                (self, Err(StoreError::Transport))
            },
            RequestView::CreateDocument { id, body } => if !self.projects.contains_key(id) {
                (
                    StoreModel {
                        projects: self.projects.insert(
                            id,
                            StoredDocument { rev: fresh, data: body.data },
                        ),
                        ..self
                    },
                    Ok(ReplyView::Accepted),
                )
            } else {
                (self, Err(StoreError::Transport))
            },
            RequestView::GetUserPayload { email } => if self.users.contains_key(email) {
                (
                    self,
                    Ok(
                        ReplyView::UserPayload(
                            UserPayloadView {
                                user: self.users[email].user,
                                rev: self.users[email].rev,
                            },
                        ),
                    ),
                )
            } else {
                (self, Err(StoreError::NotFound))
            },
            RequestView::GetUser { email } => if self.users.contains_key(email) {
                (self, Ok(ReplyView::User(self.users[email].user)))
            } else {
                (self, Err(StoreError::NotFound))
            },
            RequestView::UpdateUser { email, body } => if self.users.contains_key(email) && body.rev
                == self.users[email].rev {
                (
                    StoreModel {
                        users: self.users.insert(email, StoredUser { rev: fresh, user: body.user }),
                        ..self
                    },
                    Ok(ReplyView::Accepted),
                )
            } else {
                (self, Err(StoreError::Transport))
            },
            RequestView::CreateUser { email, body } => if !self.users.contains_key(email) {
                (
                    StoreModel {
                        users: self.users.insert(email, StoredUser { rev: fresh, user: body }),
                        ..self
                    },
                    Ok(ReplyView::Accepted),
                )
            } else {
                (self, Err(StoreError::Transport))
            },
            RequestView::DeleteUser { email, rev } => if self.users.contains_key(email) && rev
                == self.users[email].rev {
                (StoreModel { users: self.users.remove(email), ..self }, Ok(ReplyView::Accepted))
            } else {
                (self, Err(StoreError::Transport))
            },
        }
    }

    /// What a fetch of the project document `id` shows.
    pub open spec fn get_document(self, id: Seq<char>) -> Result<DocumentView, StoreError> {
        document_of(self.serve(RequestView::GetDocument { id }, Seq::empty()).1)
    }

    /// What a fetch of the user `email` shows.
    pub open spec fn get_user(self, email: Seq<char>) -> Result<UserView, StoreError> {
        user_of(self.serve(RequestView::GetUser { email }, Seq::empty()).1)
    }

    /// The upsert of a project document, run to its end against the store
    /// with no other writer and no failure in between.
    pub open spec fn put_document(self, id: Seq<char>, data: Value, fresh: Seq<char>) -> (
        StoreModel,
        Result<DocumentView, StoreError>,
    ) {
        let begun = put_document_start(id, data);
        let first = self.serve(begun.1, fresh);
        match put_document_next(begun.0, first.1) {
            ProgressView::Finished(result) => (first.0, result),
            ProgressView::Next(state, request) => {
                let second = first.0.serve(request, fresh);
                match put_document_next(state, second.1) {
                    ProgressView::Finished(result) => (second.0, result),
                    ProgressView::Next(state, request) => {
                        let third = second.0.serve(request, fresh);
                        match put_document_next(state, third.1) {
                            ProgressView::Finished(result) => (third.0, result),
                            ProgressView::Next(_, _) => (third.0, Err(StoreError::Transport)),
                        }
                    },
                }
            },
        }
    }

    /// The upsert of a user record, run to its end against the store with
    /// no other writer and no failure in between.
    pub open spec fn put_user(self, user: UserView, fresh: Seq<char>) -> (
        StoreModel,
        Result<UserView, StoreError>,
    ) {
        let begun = put_user_start(user);
        let first = self.serve(begun.1, fresh);
        match put_user_next(begun.0, first.1) {
            ProgressView::Finished(result) => (first.0, result),
            ProgressView::Next(state, request) => {
                let second = first.0.serve(request, fresh);
                match put_user_next(state, second.1) {
                    ProgressView::Finished(result) => (second.0, result),
                    ProgressView::Next(state, request) => {
                        let third = second.0.serve(request, fresh);
                        match put_user_next(state, third.1) {
                            ProgressView::Finished(result) => (third.0, result),
                            ProgressView::Next(_, _) => (third.0, Err(StoreError::Transport)),
                        }
                    },
                }
            },
        }
    }

    /// The deletion of a user record, run to its end against the store
    /// with no other writer and no failure in between.
    pub open spec fn delete_user(self, email: Seq<char>) -> (StoreModel, Result<bool, StoreError>) {
        let begun = delete_user_start(email);
        let first = self.serve(begun.1, Seq::empty());
        match delete_user_next(begun.0, first.1) {
            ProgressView::Finished(result) => (first.0, result),
            ProgressView::Next(state, request) => {
                let second = first.0.serve(request, Seq::empty());
                match delete_user_next(state, second.1) {
                    ProgressView::Finished(result) => (second.0, result),
                    ProgressView::Next(_, _) => (second.0, Err(StoreError::Transport)),
                }
            },
        }
    }
}

/// An upsert of a project document succeeds whether or not the document
/// exists: afterwards the store holds the payload under the key, at the
/// revision that the store gave to the write, and every other document and
/// every user record is as before.  On a key that held nothing the
/// document is created, with no revision asked of the caller.  The result
/// is the document as the store then shows it: the key as its identity,
/// the revision of this write, and the payload.
pub proof fn lemma_put_document_stores_payload(
    store: StoreModel,
    id: Seq<char>,
    data: Value,
    fresh: Seq<char>,
)
    ensures
        store.put_document(id, data, fresh).1 == Ok::<DocumentView, StoreError>(
            DocumentView { id: Some(id), rev: Some(fresh), data },
        ),
        store.put_document(id, data, fresh).1 == store.put_document(id, data, fresh).0.get_document(
            id,
        ),
        store.put_document(id, data, fresh).0 == (StoreModel {
            projects: store.projects.insert(id, StoredDocument { rev: fresh, data }),
            ..store
        }),
        store.put_document(id, data, fresh).0.get_document(id) == Ok::<DocumentView, StoreError>(
            DocumentView { id: Some(id), rev: Some(fresh), data },
        ),
{
}

/// Two upserts under one key, one after the other: a fetch then shows the
/// second payload, at the revision of the second write, which is not the
/// revision of the first.  All that is asked of the store is that it gives
/// the second write another revision than the first.
pub proof fn lemma_put_document_twice(
    store: StoreModel,
    id: Seq<char>,
    first_data: Value,
    second_data: Value,
    first_rev: Seq<char>,
    second_rev: Seq<char>,
)
    requires
        first_rev != second_rev,
    ensures
        ({
            let once = store.put_document(id, first_data, first_rev);
            let twice = once.0.put_document(id, second_data, second_rev);
            &&& once.1 == once.0.get_document(id)
            &&& once.0.get_document(id) == Ok::<DocumentView, StoreError>(
                DocumentView { id: Some(id), rev: Some(first_rev), data: first_data },
            )
            &&& twice.1 == twice.0.get_document(id)
            &&& twice.0.get_document(id) == Ok::<DocumentView, StoreError>(
                DocumentView { id: Some(id), rev: Some(second_rev), data: second_data },
            )
            &&& twice.0.projects[id].rev != once.0.projects[id].rev
        }),
{
    lemma_put_document_stores_payload(store, id, first_data, first_rev);
    let once = store.put_document(id, first_data, first_rev);
    lemma_put_document_stores_payload(once.0, id, second_data, second_rev);
}

/// An upsert of a user over an existing record leaves the stored password
/// hash and salt exactly as they were, whatever hash and salt the incoming
/// user carries, and stores the incoming newsletter flag and document ids.
/// The caller is handed the incoming user back.
pub proof fn lemma_put_user_keeps_credentials(store: StoreModel, user: UserView, fresh: Seq<char>)
    requires
        store.users.contains_key(user.email),
    ensures
        ({
            let before = store.users[user.email].user;
            let done = store.put_user(user, fresh);
            &&& done.1 == Ok::<UserView, StoreError>(user)
            &&& done.0.get_user(user.email) == Ok::<UserView, StoreError>(
                UserView { hashed: before.hashed, salt: before.salt, ..user },
            )
            &&& done.0.users[user.email].rev == fresh
            &&& done.0.projects == store.projects
        }),
{
}

/// An upsert of a user that the store does not hold writes the incoming
/// user as it is, hash and salt included, and hands back what the store
/// then shows.
pub proof fn lemma_put_user_creates(store: StoreModel, user: UserView, fresh: Seq<char>)
    requires
        !store.users.contains_key(user.email),
    ensures
        ({
            let done = store.put_user(user, fresh);
            &&& done.1 == Ok::<UserView, StoreError>(user)
            &&& done.0.get_user(user.email) == Ok::<UserView, StoreError>(user)
            &&& done.0.users == store.users.insert(user.email, StoredUser { rev: fresh, user })
        }),
{
}

/// What activation achieves where the remote store does not hold the user
/// yet: the user that comes out of the pending table is in memory, and the
/// store, once the upsert has run, shows that very user.
pub proof fn lemma_activation_commits(
    state: IdentityState,
    store: StoreModel,
    token: Seq<char>,
    fresh: Seq<char>,
)
    requires
        state.pending(token) is Some,
        !store.users.contains_key(state.pending(token)->Some_0.email),
    ensures
        ({
            let user = state.pending(token)->Some_0;
            let committed = store.put_user(user, fresh);
            &&& state.register(token).users.contains_key(user.email)
            &&& state.register(token).users[user.email] == user
            &&& committed.1 == Ok::<UserView, StoreError>(user)
            &&& committed.0.get_user(user.email) == Ok::<UserView, StoreError>(user)
        }),
{
    lemma_put_user_creates(store, state.pending(token)->Some_0, fresh);
}

/// A write that carries another revision than the current one is refused
/// and changes nothing.
pub proof fn lemma_stale_revision_refused(
    store: StoreModel,
    id: Seq<char>,
    body: DocumentView,
    fresh: Seq<char>,
)
    requires
        store.projects.contains_key(id),
        body.rev != Some(store.projects[id].rev),
    ensures
        store.serve(RequestView::UpdateDocument { id, body }, fresh) == (
            store,
            Err::<ReplyView, StoreError>(StoreError::Transport),
        ),
{
}

/// Deleting a user that the store holds removes the record; deleting one
/// that it does not hold fails and changes nothing, so a second deletion
/// fails.
pub proof fn lemma_delete_user_not_idempotent(store: StoreModel, email: Seq<char>)
    ensures
        store.users.contains_key(email) ==> store.delete_user(email) == (
            StoreModel { users: store.users.remove(email), ..store },
            Ok::<bool, StoreError>(true),
        ),
        !store.users.contains_key(email) ==> store.delete_user(email) == (
            store,
            Err::<bool, StoreError>(StoreError::NotFound),
        ),
        store.delete_user(email).0.delete_user(email).1 == Err::<bool, StoreError>(
            StoreError::NotFound,
        ),
{
}

/// A failure to reach the store on the first fetch ends an upsert at once,
/// with no write requested.
pub proof fn lemma_failed_fetch_aborts(id: Seq<char>, data: Value, user: UserView)
    ensures
        put_document_next(put_document_start(id, data).0, Err(StoreError::Transport))
            == ProgressView::<PutDocumentView, DocumentView>::Finished(Err(StoreError::Transport)),
        put_user_next(put_user_start(user).0, Err(StoreError::Transport)) == ProgressView::<
            PutUserView,
            UserView,
        >::Finished(Err(StoreError::Transport)),
{
}

} // verus!
