//! The document store client.
//!
//! The remote store keeps every document under a key and tags it with a
//! revision that changes on each write.  A write to an existing document
//! must carry the revision last seen; a creation must carry none.  The
//! client holds no state between operations and never talks to the network
//! itself: each operation is a small machine that names the next request
//! and is then handed the store's answer.

use crate::auth::{clone_strings, User, UserView};
use crate::text::join3;
use serde_json::Value;
use vstd::prelude::*;
use vstd::string::*;

verus! {

/// A JSON value of the `serde_json` crate.  The client carries payloads of
/// this type through and never looks inside them.
#[verifier::external_type_specification]
#[verifier::external_body]
pub struct ExValue(serde_json::Value);

/// The characters of an optional string.
pub open spec fn option_view(text: Option<String>) -> Option<Seq<char>> {
    match text {
        Some(t) => Some(t@),
        None => None,
    }
}

/// Why an exchange with the store failed.
#[derive(Clone, Copy, Debug, PartialEq, Eq, Structural)]
pub enum StoreError {
    /// The store has nothing under the key.
    NotFound,
    /// The store could not be reached, refused the request (a stale
    /// revision among the reasons), or answered with something unexpected.
    Transport,
}

/// A stored document as the store hands it out.
#[derive(Debug, PartialEq)]
pub struct Document {
    pub id: Option<String>,
    pub rev: Option<String>,
    pub data: Value,
}

/// The content of a `Document`.
pub struct DocumentView {
    pub id: Option<Seq<char>>,
    pub rev: Option<Seq<char>>,
    pub data: Value,
}

impl View for Document {
    type V = DocumentView;

    open spec fn view(&self) -> DocumentView {
        DocumentView { id: option_view(self.id), rev: option_view(self.rev), data: self.data }
    }
}

/// A document that the store does not hold yet: it has no revision.
#[derive(Debug, PartialEq)]
pub struct NewDocument {
    pub id: String,
    pub data: Value,
}

/// The content of a `NewDocument`.
pub struct NewDocumentView {
    pub id: Seq<char>,
    pub data: Value,
}

impl View for NewDocument {
    type V = NewDocumentView;

    open spec fn view(&self) -> NewDocumentView {
        NewDocumentView { id: self.id@, data: self.data }
    }
}

/// A user record as the store holds it: the user's fields and the
/// record's revision.
#[derive(Debug, PartialEq)]
pub struct UserPayload {
    pub email: String,
    pub newsletter: bool,
    pub hashed: String,
    pub salt: String,
    pub uuids: Vec<String>,
    rev: String,
}

/// The content of a `UserPayload`.
pub struct UserPayloadView {
    pub user: UserView,
    pub rev: Seq<char>,
}

impl View for UserPayload {
    type V = UserPayloadView;

    closed spec fn view(&self) -> UserPayloadView {
        UserPayloadView {
            user: UserView {
                email: self.email@,
                newsletter: self.newsletter,
                hashed: self.hashed@,
                salt: self.salt@,
                uuids: self.uuids.deep_view(),
            },
            rev: self.rev@,
        }
    }
}

impl UserPayload {
    /// The record of `user` at revision `rev`.
    pub fn new(user: User, rev: String) -> (payload: Self)
        ensures
            payload@ == (UserPayloadView { user: user@, rev: rev@ }),
    {
        UserPayload {
            email: user.email,
            newsletter: user.newsletter,
            hashed: user.hashed,
            salt: user.salt,
            uuids: user.uuids,
            rev,
        }
    }

    /// The revision of the record.
    pub fn rev(&self) -> (rev: &String)
        ensures
            rev@ == self@.rev,
    {
        &self.rev
    }

    /// The user that the record describes.
    pub fn user(&self) -> (user: User)
        ensures
            user@ == self@.user,
    {
        User {
            email: self.email.clone(),
            newsletter: self.newsletter,
            hashed: self.hashed.clone(),
            salt: self.salt.clone(),
            uuids: clone_strings(&self.uuids),
        }
    }
}

/// How a request is sent.
#[derive(Clone, Copy, Debug, PartialEq, Eq, Structural)]
pub enum Method {
    Get,
    Put,
    Delete,
}

/// A request to the store.
#[derive(Debug, PartialEq)]
#[allow(inconsistent_fields)]
pub enum StoreRequest {
    /// Fetch the project document `id`.
    GetDocument { id: String },
    /// Write `body`, which carries a revision, over the project document
    /// `id`.
    UpdateDocument { id: String, body: Document },
    /// Create the project document `id` from `body`, which carries no
    /// revision.
    CreateDocument { id: String, body: NewDocument },
    /// Fetch the record of the user `email`, revision included.
    GetUserPayload { email: String },
    /// Fetch the user `email`.
    GetUser { email: String },
    /// Write `body`, which carries a revision, over the record of the user
    /// `email`.
    UpdateUser { email: String, body: UserPayload },
    /// Create the record of the user `email` from `body`, which carries no
    /// revision.
    CreateUser { email: String, body: User },
    /// Delete the record of the user `email` at revision `rev`.
    DeleteUser { email: String, rev: String },
}

/// The content of a `StoreRequest`.
#[allow(inconsistent_fields)]
pub enum RequestView {
    GetDocument { id: Seq<char> },
    UpdateDocument { id: Seq<char>, body: DocumentView },
    CreateDocument { id: Seq<char>, body: NewDocumentView },
    GetUserPayload { email: Seq<char> },
    GetUser { email: Seq<char> },
    UpdateUser { email: Seq<char>, body: UserPayloadView },
    CreateUser { email: Seq<char>, body: UserView },
    DeleteUser { email: Seq<char>, rev: Seq<char> },
}

impl View for StoreRequest {
    type V = RequestView;

    open spec fn view(&self) -> RequestView {
        match *self {
            StoreRequest::GetDocument { id } => RequestView::GetDocument { id: id@ },
            StoreRequest::UpdateDocument { id, body } => RequestView::UpdateDocument {
                id: id@,
                body: body@,
            },
            StoreRequest::CreateDocument { id, body } => RequestView::CreateDocument {
                id: id@,
                body: body@,
            },
            StoreRequest::GetUserPayload { email } => RequestView::GetUserPayload { email: email@ },
            StoreRequest::GetUser { email } => RequestView::GetUser { email: email@ },
            StoreRequest::UpdateUser { email, body } => RequestView::UpdateUser {
                email: email@,
                body: body@,
            },
            StoreRequest::CreateUser { email, body } => RequestView::CreateUser {
                email: email@,
                body: body@,
            },
            StoreRequest::DeleteUser { email, rev } => RequestView::DeleteUser {
                email: email@,
                rev: rev@,
            },
        }
    }
}

impl RequestView {
    /// How the request is sent.
    pub open spec fn method(self) -> Method {
        match self {
            RequestView::GetDocument { .. } => Method::Get,
            RequestView::GetUserPayload { .. } => Method::Get,
            RequestView::GetUser { .. } => Method::Get,
            RequestView::UpdateDocument { .. } => Method::Put,
            RequestView::CreateDocument { .. } => Method::Put,
            RequestView::UpdateUser { .. } => Method::Put,
            RequestView::CreateUser { .. } => Method::Put,
            RequestView::DeleteUser { .. } => Method::Delete,
        }
    }

    /// Where the request is sent, for a store at `base`.
    pub open spec fn url(self, base: Seq<char>) -> Seq<char> {
        match self {
            RequestView::GetDocument { id } => base + "/projects/"@ + id,
            RequestView::UpdateDocument { id, .. } => base + "/projects/"@ + id,
            RequestView::CreateDocument { id, .. } => base + "/projects/"@ + id,
            RequestView::GetUserPayload { email } => base + "/users/"@ + email,
            RequestView::GetUser { email } => base + "/users/"@ + email,
            RequestView::UpdateUser { email, .. } => base + "/users/"@ + email,
            RequestView::CreateUser { email, .. } => base + "/users/"@ + email,
            RequestView::DeleteUser { email, rev } => base + "/users/"@ + email + "?rev="@ + rev,
        }
    }
}

/// What the store answered where it accepted a request.
#[derive(Debug, PartialEq)]
pub enum StoreReply {
    Document(Document),
    UserPayload(UserPayload),
    User(User),
    /// The request was accepted; the answer holds nothing that is used.
    Accepted,
}

/// The content of a `StoreReply`.
pub enum ReplyView {
    Document(DocumentView),
    UserPayload(UserPayloadView),
    User(UserView),
    Accepted,
}

impl View for StoreReply {
    type V = ReplyView;

    open spec fn view(&self) -> ReplyView {
        match *self {
            StoreReply::Document(d) => ReplyView::Document(d@),
            StoreReply::UserPayload(p) => ReplyView::UserPayload(p@),
            StoreReply::User(u) => ReplyView::User(u@),
            StoreReply::Accepted => ReplyView::Accepted,
        }
    }
}

/// The content of the outcome of an exchange.
pub open spec fn event_view(event: Result<StoreReply, StoreError>) -> Result<ReplyView, StoreError> {
    match event {
        Ok(reply) => Ok(reply@),
        Err(e) => Err(e),
    }
}

/// One step of an operation: either the next state with the request to
/// send, or the operation's result.
#[derive(Debug, PartialEq)]
pub enum Progress<S, T> {
    Next(S, StoreRequest),
    Finished(Result<T, StoreError>),
}

/// The content of a `Progress`.
pub enum ProgressView<S, T> {
    Next(S, RequestView),
    Finished(Result<T, StoreError>),
}

/// Where the machine for `put_document` stands.
#[derive(Debug, PartialEq)]
pub enum PutDocument {
    /// The current document was asked for.
    Fetching { id: String, data: Value },
    /// An update that carries the current revision was sent.
    Updating { id: String },
    /// A creation was sent.
    Creating { id: String },
    /// The document was written and was asked for again.
    Refetching,
}

/// The content of a `PutDocument`.
pub enum PutDocumentView {
    Fetching { id: Seq<char>, data: Value },
    Updating { id: Seq<char> },
    Creating { id: Seq<char> },
    Refetching,
}

impl View for PutDocument {
    type V = PutDocumentView;

    open spec fn view(&self) -> PutDocumentView {
        match *self {
            PutDocument::Fetching { id, data } => PutDocumentView::Fetching { id: id@, data },
            PutDocument::Updating { id } => PutDocumentView::Updating { id: id@ },
            PutDocument::Creating { id } => PutDocumentView::Creating { id: id@ },
            PutDocument::Refetching => PutDocumentView::Refetching,
        }
    }
}

/// Where the machine for `put_user` stands.
#[derive(Debug, PartialEq)]
pub enum PutUser {
    /// The current record was asked for.
    Fetching { user: User },
    /// An update that carries the current revision was sent.
    Updating { user: User },
    /// A creation was sent.
    Creating { email: String },
    /// The record was created and the user was asked for again.
    Refetching,
}

/// The content of a `PutUser`.
pub enum PutUserView {
    Fetching { user: UserView },
    Updating { user: UserView },
    Creating { email: Seq<char> },
    Refetching,
}

impl View for PutUser {
    type V = PutUserView;

    open spec fn view(&self) -> PutUserView {
        match *self {
            PutUser::Fetching { user } => PutUserView::Fetching { user: user@ },
            PutUser::Updating { user } => PutUserView::Updating { user: user@ },
            PutUser::Creating { email } => PutUserView::Creating { email: email@ },
            PutUser::Refetching => PutUserView::Refetching,
        }
    }
}

/// Where the machine for `delete_user` stands.
#[derive(Debug, PartialEq)]
pub enum DeleteUser {
    /// The current record was asked for.
    Fetching { email: String },
    /// The deletion at the current revision was sent.
    Deleting,
}

/// The content of a `DeleteUser`.
pub enum DeleteUserView {
    Fetching { email: Seq<char> },
    Deleting,
}

impl View for DeleteUser {
    type V = DeleteUserView;

    open spec fn view(&self) -> DeleteUserView {
        match *self {
            DeleteUser::Fetching { email } => DeleteUserView::Fetching { email: email@ },
            DeleteUser::Deleting => DeleteUserView::Deleting,
        }
    }
}

/// The content of a step of `put_document`.
pub open spec fn put_document_progress(step: Progress<PutDocument, Document>) -> ProgressView<
    PutDocumentView,
    DocumentView,
> {
    match step {
        Progress::Next(state, request) => ProgressView::Next(state@, request@),
        Progress::Finished(Ok(document)) => ProgressView::Finished(Ok(document@)),
        Progress::Finished(Err(e)) => ProgressView::Finished(Err(e)),
    }
}

/// The content of a step of `put_user`.
pub open spec fn put_user_progress(step: Progress<PutUser, User>) -> ProgressView<
    PutUserView,
    UserView,
> {
    match step {
        Progress::Next(state, request) => ProgressView::Next(state@, request@),
        Progress::Finished(Ok(user)) => ProgressView::Finished(Ok(user@)),
        Progress::Finished(Err(e)) => ProgressView::Finished(Err(e)),
    }
}

/// The content of a step of `delete_user`.
pub open spec fn delete_user_progress(step: Progress<DeleteUser, bool>) -> ProgressView<
    DeleteUserView,
    bool,
> {
    match step {
        Progress::Next(state, request) => ProgressView::Next(state@, request@),
        Progress::Finished(result) => ProgressView::Finished(result),
    }
}

/// What the answer to a fetch of a document amounts to.
pub open spec fn document_of(event: Result<ReplyView, StoreError>) -> Result<
    DocumentView,
    StoreError,
> {
    match event {
        Ok(ReplyView::Document(document)) => Ok(document),
        Ok(_) => Err(StoreError::Transport),
        Err(e) => Err(e),
    }
}

/// What the answer to a fetch of a user record amounts to.
pub open spec fn user_payload_of(event: Result<ReplyView, StoreError>) -> Result<
    UserPayloadView,
    StoreError,
> {
    match event {
        Ok(ReplyView::UserPayload(payload)) => Ok(payload),
        Ok(_) => Err(StoreError::Transport),
        Err(e) => Err(e),
    }
}

/// What the answer to a fetch of a user amounts to.
pub open spec fn user_of(event: Result<ReplyView, StoreError>) -> Result<UserView, StoreError> {
    match event {
        Ok(ReplyView::User(user)) => Ok(user),
        Ok(_) => Err(StoreError::Transport),
        Err(e) => Err(e),
    }
}

/// How `put_document` begins: by asking for the current document.
pub open spec fn put_document_start(id: Seq<char>, data: Value) -> (PutDocumentView, RequestView) {
    (PutDocumentView::Fetching { id, data }, RequestView::GetDocument { id })
}

/// How `put_document` goes on.
///
/// If the document was found, an update is sent that carries the revision
/// just seen and the new payload.  If it was not found, a creation without
/// revision is sent.  Either way the document is then fetched again, and
/// what the store hands out, with the identity and the revision that the
/// store gave it, is the result.  Any other failure of the first fetch
/// ends the operation: it is never taken as leave to create.  A failed
/// write or re-fetch is handed on as it is.
pub open spec fn put_document_next(
    state: PutDocumentView,
    event: Result<ReplyView, StoreError>,
) -> ProgressView<PutDocumentView, DocumentView> {
    match state {
        PutDocumentView::Fetching { id, data } => match document_of(event) {
            Ok(current) => ProgressView::Next(
                PutDocumentView::Updating { id },
                RequestView::UpdateDocument {
                    id,
                    body: DocumentView { id: current.id, rev: current.rev, data },
                },
            ),
            Err(StoreError::NotFound) => ProgressView::Next(
                PutDocumentView::Creating { id },
                RequestView::CreateDocument { id, body: NewDocumentView { id, data } },
            ),
            Err(StoreError::Transport) => ProgressView::Finished(Err(StoreError::Transport)),
        },
        PutDocumentView::Updating { id } => match event {
            Ok(_) => ProgressView::Next(
                PutDocumentView::Refetching,
                RequestView::GetDocument { id },
            ),
            Err(e) => ProgressView::Finished(Err(e)),
        },
        PutDocumentView::Creating { id } => match event {
            Ok(_) => ProgressView::Next(
                PutDocumentView::Refetching,
                RequestView::GetDocument { id },
            ),
            Err(e) => ProgressView::Finished(Err(e)),
        },
        PutDocumentView::Refetching => match document_of(event) {
            Ok(written) => ProgressView::Finished(Ok(written)),
            Err(e) => ProgressView::Finished(Err(e)),
        },
    }
}

/// The record that `put_user` writes over an existing one: email,
/// newsletter flag and document ids come from the incoming user, password
/// hash, salt and revision from the record that the store holds.
pub open spec fn merged_record(incoming: UserView, current: UserPayloadView) -> UserPayloadView {
    UserPayloadView {
        user: UserView {
            email: incoming.email,
            newsletter: incoming.newsletter,
            hashed: current.user.hashed,
            salt: current.user.salt,
            uuids: incoming.uuids,
        },
        rev: current.rev,
    }
}

/// How `put_user` begins: by asking for the current record.
pub open spec fn put_user_start(user: UserView) -> (PutUserView, RequestView) {
    (PutUserView::Fetching { user }, RequestView::GetUserPayload { email: user.email })
}

/// How `put_user` goes on.
///
/// If a record was found, the merged record is written over it and the
/// incoming user is the result.  If none was found, the incoming user is
/// written as a new record and then fetched again for the result.  Any
/// other failure ends the operation and is handed on.
pub open spec fn put_user_next(
    state: PutUserView,
    event: Result<ReplyView, StoreError>,
) -> ProgressView<PutUserView, UserView> {
    match state {
        PutUserView::Fetching { user } => match user_payload_of(event) {
            Ok(current) => ProgressView::Next(
                PutUserView::Updating { user },
                RequestView::UpdateUser { email: user.email, body: merged_record(user, current) },
            ),
            Err(StoreError::NotFound) => ProgressView::Next(
                PutUserView::Creating { email: user.email },
                RequestView::CreateUser { email: user.email, body: user },
            ),
            Err(StoreError::Transport) => ProgressView::Finished(Err(StoreError::Transport)),
        },
        PutUserView::Updating { user } => match event {
            Ok(_) => ProgressView::Finished(Ok(user)),
            Err(e) => ProgressView::Finished(Err(e)),
        },
        PutUserView::Creating { email } => match event {
            Ok(_) => ProgressView::Next(PutUserView::Refetching, RequestView::GetUser { email }),
            Err(e) => ProgressView::Finished(Err(e)),
        },
        PutUserView::Refetching => match user_of(event) {
            Ok(created) => ProgressView::Finished(Ok(created)),
            Err(e) => ProgressView::Finished(Err(e)),
        },
    }
}

/// How `delete_user` begins: by asking for the current record.
pub open spec fn delete_user_start(email: Seq<char>) -> (DeleteUserView, RequestView) {
    (DeleteUserView::Fetching { email }, RequestView::GetUserPayload { email })
}

/// How `delete_user` goes on: the deletion carries the revision just
/// seen.  A user that the store does not hold cannot be deleted: the
/// failed fetch is handed on.
pub open spec fn delete_user_next(
    state: DeleteUserView,
    event: Result<ReplyView, StoreError>,
) -> ProgressView<DeleteUserView, bool> {
    match state {
        DeleteUserView::Fetching { email } => match user_payload_of(event) {
            Ok(current) => ProgressView::Next(
                DeleteUserView::Deleting,
                RequestView::DeleteUser { email, rev: current.rev },
            ),
            Err(e) => ProgressView::Finished(Err(e)),
        },
        DeleteUserView::Deleting => match event {
            Ok(_) => ProgressView::Finished(Ok(true)),
            Err(e) => ProgressView::Finished(Err(e)),
        },
    }
}

/// The client: the address of the store and the credentials for it.
#[derive(Debug, PartialEq)]
pub struct CouchDB {
    url: String,
    auth: (String, String),
}

impl CouchDB {
    /// The address of the store.
    pub closed spec fn base(&self) -> Seq<char> {
        self.url@
    }

    /// The client for the store at `url`.
    pub fn new(url: String, username: String, password: String) -> (db: Self)
        ensures
            db.base() == url@,
            db.credentials() == (username@, password@),
    {
        CouchDB { url, auth: (username, password) }
    }

    /// The user name and the password for the store.
    pub closed spec fn credentials(&self) -> (Seq<char>, Seq<char>) {
        (self.auth.0@, self.auth.1@)
    }

    /// The user name for the store.
    pub fn username(&self) -> (name: &String)
        ensures
            name@ == self.credentials().0,
    {
        &self.auth.0
    }

    /// The password for the store.
    pub fn password(&self) -> (password: &String)
        ensures
            password@ == self.credentials().1,
    {
        &self.auth.1
    }

    /// How `request` is sent.
    pub fn method_of(&self, request: &StoreRequest) -> (method: Method)
        ensures
            method == request@.method(),
    {
        match request {
            StoreRequest::GetDocument { .. } => Method::Get,
            StoreRequest::GetUserPayload { .. } => Method::Get,
            StoreRequest::GetUser { .. } => Method::Get,
            StoreRequest::UpdateDocument { .. } => Method::Put,
            StoreRequest::CreateDocument { .. } => Method::Put,
            StoreRequest::UpdateUser { .. } => Method::Put,
            StoreRequest::CreateUser { .. } => Method::Put,
            StoreRequest::DeleteUser { .. } => Method::Delete,
        }
    }

    /// Where `request` is sent.
    pub fn url_of(&self, request: &StoreRequest) -> (url: String)
        ensures
            url@ == request@.url(self.base()),
    {
        match request {
            StoreRequest::GetDocument { id } => join3(self.url.as_str(), "/projects/", id.as_str()),
            StoreRequest::UpdateDocument { id, .. } => join3(
                self.url.as_str(),
                "/projects/",
                id.as_str(),
            ),
            StoreRequest::CreateDocument { id, .. } => join3(
                self.url.as_str(),
                "/projects/",
                id.as_str(),
            ),
            StoreRequest::GetUserPayload { email } => join3(
                self.url.as_str(),
                "/users/",
                email.as_str(),
            ),
            StoreRequest::GetUser { email } => join3(self.url.as_str(), "/users/", email.as_str()),
            StoreRequest::UpdateUser { email, .. } => join3(
                self.url.as_str(),
                "/users/",
                email.as_str(),
            ),
            StoreRequest::CreateUser { email, .. } => join3(
                self.url.as_str(),
                "/users/",
                email.as_str(),
            ),
            StoreRequest::DeleteUser { email, rev } => {
                let mut url = join3(self.url.as_str(), "/users/", email.as_str());
                url.append("?rev=");
                url.append(rev.as_str());
                url
            },
        }
    }

    /// The request that fetches the project document `id`.
    pub fn get_document(&self, id: &str) -> (request: StoreRequest)
        ensures
            request@ == (RequestView::GetDocument { id: id@ }),
    {
        StoreRequest::GetDocument { id: id.to_owned() }
    }

    /// The document that the answer to `get_document` holds.  A missing
    /// document is told apart from every other failure.
    pub fn get_document_done(&self, event: Result<StoreReply, StoreError>) -> (r: Result<
        Document,
        StoreError,
    >)
        ensures
            match r {
                Ok(document) => document_of(event_view(event)) == Ok::<DocumentView, StoreError>(
                    document@,
                ),
                Err(e) => document_of(event_view(event)) == Err::<DocumentView, StoreError>(e),
            },
    {
        match event {
            Ok(StoreReply::Document(document)) => Ok(document),
            Ok(_) => Err(StoreError::Transport),
            Err(e) => Err(e),
        }
    }

    /// The payload that the answer to `get_document` holds.
    pub fn get_document_data(&self, event: Result<StoreReply, StoreError>) -> (r: Result<
        Value,
        StoreError,
    >)
        ensures
            match r {
                Ok(data) => (document_of(event_view(event)) matches Ok(document) && document.data
                    == data),
                Err(e) => document_of(event_view(event)) == Err::<DocumentView, StoreError>(e),
            },
    {
        match self.get_document_done(event) {
            Ok(document) => Ok(document.data),
            Err(e) => Err(e),
        }
    }

    /// The request that fetches the record of the user `email`.
    pub fn get_user_payload(&self, email: &str) -> (request: StoreRequest)
        ensures
            request@ == (RequestView::GetUserPayload { email: email@ }),
    {
        StoreRequest::GetUserPayload { email: email.to_owned() }
    }

    /// The record that the answer to `get_user_payload` holds.
    pub fn get_user_payload_done(&self, event: Result<StoreReply, StoreError>) -> (r: Result<
        UserPayload,
        StoreError,
    >)
        ensures
            match r {
                Ok(payload) => user_payload_of(event_view(event)) == Ok::<
                    UserPayloadView,
                    StoreError,
                >(payload@),
                Err(e) => user_payload_of(event_view(event)) == Err::<UserPayloadView, StoreError>(
                    e,
                ),
            },
    {
        match event {
            Ok(StoreReply::UserPayload(payload)) => Ok(payload),
            Ok(_) => Err(StoreError::Transport),
            Err(e) => Err(e),
        }
    }

    /// The request that fetches the user `email`.
    pub fn get_user(&self, email: &str) -> (request: StoreRequest)
        ensures
            request@ == (RequestView::GetUser { email: email@ }),
    {
        StoreRequest::GetUser { email: email.to_owned() }
    }

    /// The user that the answer to `get_user` holds.
    pub fn get_user_done(&self, event: Result<StoreReply, StoreError>) -> (r: Result<
        User,
        StoreError,
    >)
        ensures
            match r {
                Ok(user) => user_of(event_view(event)) == Ok::<UserView, StoreError>(user@),
                Err(e) => user_of(event_view(event)) == Err::<UserView, StoreError>(e),
            },
    {
        match event {
            Ok(StoreReply::User(user)) => Ok(user),
            Ok(_) => Err(StoreError::Transport),
            Err(e) => Err(e),
        }
    }

    /// Begins the upsert of the project document `id` with payload `data`.
    pub fn put_document(&self, id: &str, data: Value) -> (begun: (PutDocument, StoreRequest))
        ensures
            (begun.0@, begun.1@) == put_document_start(id@, data),
    {
        (
            PutDocument::Fetching { id: id.to_owned(), data },
            StoreRequest::GetDocument { id: id.to_owned() },
        )
    }

    /// Takes the upsert of a project document one step on, given the
    /// store's answer to the request that was last sent.
    pub fn put_document_step(
        &self,
        state: PutDocument,
        event: Result<StoreReply, StoreError>,
    ) -> (step: Progress<PutDocument, Document>)
        ensures
            put_document_progress(step) == put_document_next(state@, event_view(event)),
    {
        match state {
            PutDocument::Fetching { id, data } => match event {
                Ok(StoreReply::Document(current)) => {
                    let body = Document { id: current.id, rev: current.rev, data };
                    Progress::Next(
                        PutDocument::Updating { id: id.clone() },
                        StoreRequest::UpdateDocument { id, body },
                    )
                },
                Ok(_) => Progress::Finished(Err(StoreError::Transport)),
                Err(StoreError::NotFound) => {
                    let body = NewDocument { id: id.clone(), data };
                    Progress::Next(
                        PutDocument::Creating { id: id.clone() },
                        StoreRequest::CreateDocument { id, body },
                    )
                },
                Err(StoreError::Transport) => Progress::Finished(Err(StoreError::Transport)),
            },
            PutDocument::Updating { id } => match event {
                Ok(_) => Progress::Next(PutDocument::Refetching, StoreRequest::GetDocument { id }),
                Err(e) => Progress::Finished(Err(e)),
            },
            PutDocument::Creating { id } => match event {
                Ok(_) => Progress::Next(PutDocument::Refetching, StoreRequest::GetDocument { id }),
                Err(e) => Progress::Finished(Err(e)),
            },
            PutDocument::Refetching => match event {
                Ok(StoreReply::Document(written)) => Progress::Finished(Ok(written)),
                Ok(_) => Progress::Finished(Err(StoreError::Transport)),
                Err(e) => Progress::Finished(Err(e)),
            },
        }
    }

    /// Begins the upsert of the record of `user`.
    pub fn put_user(&self, user: User) -> (begun: (PutUser, StoreRequest))
        ensures
            (begun.0@, begun.1@) == put_user_start(user@),
    {
        let email = user.email.clone();
        (PutUser::Fetching { user }, StoreRequest::GetUserPayload { email })
    }

    /// Takes the upsert of a user record one step on, given the store's
    /// answer to the request that was last sent.
    pub fn put_user_step(&self, state: PutUser, event: Result<StoreReply, StoreError>) -> (step:
        Progress<PutUser, User>)
        ensures
            put_user_progress(step) == put_user_next(state@, event_view(event)),
    {
        match state {
            PutUser::Fetching { user } => match event {
                Ok(StoreReply::UserPayload(current)) => {
                    let body = UserPayload {
                        email: user.email.clone(),
                        newsletter: user.newsletter,
                        hashed: current.hashed,
                        salt: current.salt,
                        uuids: clone_strings(&user.uuids),
                        rev: current.rev,
                    };
                    let email = user.email.clone();
                    Progress::Next(
                        PutUser::Updating { user },
                        StoreRequest::UpdateUser { email, body },
                    )
                },
                Ok(_) => Progress::Finished(Err(StoreError::Transport)),
                Err(StoreError::NotFound) => {
                    let email = user.email.clone();
                    Progress::Next(
                        PutUser::Creating { email: email.clone() },
                        StoreRequest::CreateUser { email, body: user },
                    )
                },
                Err(StoreError::Transport) => Progress::Finished(Err(StoreError::Transport)),
            },
            PutUser::Updating { user } => match event {
                Ok(_) => Progress::Finished(Ok(user)),
                Err(e) => Progress::Finished(Err(e)),
            },
            PutUser::Creating { email } => match event {
                Ok(_) => Progress::Next(PutUser::Refetching, StoreRequest::GetUser { email }),
                Err(e) => Progress::Finished(Err(e)),
            },
            PutUser::Refetching => match event {
                Ok(StoreReply::User(created)) => Progress::Finished(Ok(created)),
                Ok(_) => Progress::Finished(Err(StoreError::Transport)),
                Err(e) => Progress::Finished(Err(e)),
            },
        }
    }

    /// Begins the deletion of the record of the user `email`.
    pub fn delete_user(&self, email: &str) -> (begun: (DeleteUser, StoreRequest))
        ensures
            (begun.0@, begun.1@) == delete_user_start(email@),
    {
        (
            DeleteUser::Fetching { email: email.to_owned() },
            StoreRequest::GetUserPayload { email: email.to_owned() },
        )
    }

    /// Takes the deletion of a user record one step on, given the store's
    /// answer to the request that was last sent.
    pub fn delete_user_step(&self, state: DeleteUser, event: Result<StoreReply, StoreError>) -> (step:
        Progress<DeleteUser, bool>)
        ensures
            delete_user_progress(step) == delete_user_next(state@, event_view(event)),
    {
        match state {
            DeleteUser::Fetching { email } => match event {
                Ok(StoreReply::UserPayload(current)) => Progress::Next(
                    DeleteUser::Deleting,
                    StoreRequest::DeleteUser { email, rev: current.rev },
                ),
                Ok(_) => Progress::Finished(Err(StoreError::Transport)),
                Err(e) => Progress::Finished(Err(e)),
            },
            DeleteUser::Deleting => match event {
                Ok(_) => Progress::Finished(Ok(true)),
                Err(e) => Progress::Finished(Err(e)),
            },
        }
    }
}

} // verus!
