use identity_core::auth::User;
use identity_core::db::{
    CouchDB, DeleteUser, Document, Method, NewDocument, Progress, PutDocument, PutUser,
    StoreError, StoreReply, StoreRequest, UserPayload,
};
use serde_json::Value;
use std::collections::HashMap;

/// A store in memory that behaves as the remote store is expected to.
struct FakeStore {
    projects: HashMap<String, (u32, Value)>,
    users: HashMap<String, (u32, User)>,
    writes: u32,
    log: Vec<String>,
    down: bool,
}

fn rev_text(n: u32) -> String {
    format!("{}-rev", n)
}

impl FakeStore {
    fn new() -> Self {
        FakeStore { projects: HashMap::new(), users: HashMap::new(), writes: 0, log: Vec::new(), down: false }
    }

    fn serve(&mut self, db: &CouchDB, request: &StoreRequest) -> Result<StoreReply, StoreError> {
        let method = match db.method_of(request) {
            Method::Get => "GET",
            Method::Put => "PUT",
            Method::Delete => "DELETE",
        };
        self.log.push(format!("{} {}", method, db.url_of(request)));
        if self.down {
            return Err(StoreError::Transport);
        }
        match request {
            StoreRequest::GetDocument { id } => match self.projects.get(id) {
                Some((rev, data)) => Ok(StoreReply::Document(Document {
                    id: Some(id.clone()),
                    rev: Some(rev_text(*rev)),
                    data: data.clone(),
                })),
                None => Err(StoreError::NotFound),
            },
            StoreRequest::UpdateDocument { id, body } => match self.projects.get(id) {
                Some((rev, _)) if body.rev == Some(rev_text(*rev)) => {
                    self.writes += 1;
                    self.projects.insert(id.clone(), (self.writes, body.data.clone()));
                    Ok(StoreReply::Accepted)
                }
                _ => Err(StoreError::Transport),
            },
            StoreRequest::CreateDocument { id, body } => {
                if self.projects.contains_key(id) {
                    return Err(StoreError::Transport);
                }
                self.writes += 1;
                self.projects.insert(id.clone(), (self.writes, body.data.clone()));
                Ok(StoreReply::Accepted)
            }
            StoreRequest::GetUserPayload { email } => match self.users.get(email) {
                Some((rev, user)) => Ok(StoreReply::UserPayload(UserPayload::new(user.clone(), rev_text(*rev)))),
                None => Err(StoreError::NotFound),
            },
            StoreRequest::GetUser { email } => match self.users.get(email) {
                Some((_, user)) => Ok(StoreReply::User(user.clone())),
                None => Err(StoreError::NotFound),
            },
            StoreRequest::UpdateUser { email, body } => match self.users.get(email) {
                Some((rev, _)) if *body.rev() == rev_text(*rev) => {
                    self.writes += 1;
                    self.users.insert(email.clone(), (self.writes, body.user()));
                    Ok(StoreReply::Accepted)
                }
                _ => Err(StoreError::Transport),
            },
            StoreRequest::CreateUser { email, body } => {
                if self.users.contains_key(email) {
                    return Err(StoreError::Transport);
                }
                self.writes += 1;
                self.users.insert(email.clone(), (self.writes, body.clone()));
                Ok(StoreReply::Accepted)
            }
            StoreRequest::DeleteUser { email, rev } => match self.users.get(email) {
                Some((current, _)) if *rev == rev_text(*current) => {
                    self.users.remove(email);
                    Ok(StoreReply::Accepted)
                }
                _ => Err(StoreError::Transport),
            },
        }
    }

    fn put_document(&mut self, db: &CouchDB, id: &str, data: Value) -> Result<Document, StoreError> {
        let (mut state, mut request) = db.put_document(id, data);
        loop {
            let event = self.serve(db, &request);
            match db.put_document_step(state, event) {
                Progress::Next(s, r) => {
                    state = s;
                    request = r;
                }
                Progress::Finished(result) => return result,
            }
        }
    }

    fn put_user(&mut self, db: &CouchDB, user: User) -> Result<User, StoreError> {
        let (mut state, mut request) = db.put_user(user);
        loop {
            let event = self.serve(db, &request);
            match db.put_user_step(state, event) {
                Progress::Next(s, r) => {
                    state = s;
                    request = r;
                }
                Progress::Finished(result) => return result,
            }
        }
    }

    fn delete_user(&mut self, db: &CouchDB, email: &str) -> Result<bool, StoreError> {
        let (mut state, mut request) = db.delete_user(email);
        loop {
            let event = self.serve(db, &request);
            match db.delete_user_step(state, event) {
                Progress::Next(s, r) => {
                    state = s;
                    request = r;
                }
                Progress::Finished(result) => return result,
            }
        }
    }

    fn get_document(&mut self, db: &CouchDB, id: &str) -> Result<Document, StoreError> {
        let request = db.get_document(id);
        let event = self.serve(db, &request);
        db.get_document_done(event)
    }

    fn get_user(&mut self, db: &CouchDB, email: &str) -> Result<User, StoreError> {
        let request = db.get_user(email);
        let event = self.serve(db, &request);
        db.get_user_done(event)
    }
}

fn db() -> CouchDB {
    CouchDB::new("http://store:5984".to_string(), "admin".to_string(), "store-pass".to_string())
}

fn text(s: &str) -> Value {
    Value::String(s.to_string())
}

fn stored(id: &str, rev: u32, data: Value) -> Document {
    Document { id: Some(id.to_string()), rev: Some(rev_text(rev)), data }
}

fn user(email: &str, newsletter: bool, hashed: &str, salt: &str, uuids: &[&str]) -> User {
    User {
        email: email.to_string(),
        newsletter,
        hashed: hashed.to_string(),
        salt: salt.to_string(),
        uuids: uuids.iter().map(|u| u.to_string()).collect(),
    }
}

#[test]
fn client_keeps_address_and_credentials() {
    let db = db();
    assert_eq!(db.username(), "admin");
    assert_eq!(db.password(), "store-pass");
    assert_eq!(db.url_of(&db.get_document("plan")), "http://store:5984/projects/plan");
}

#[test]
fn urls_and_methods_of_all_requests() {
    let db = db();
    let doc = Document { id: Some("plan".to_string()), rev: Some("1-a".to_string()), data: Value::Null };
    let new_doc = NewDocument { id: "plan".to_string(), data: Value::Null };
    let u = user("a@x.com", false, "h", "s", &[]);
    let cases = vec![
        (StoreRequest::GetDocument { id: "plan".to_string() }, Method::Get, "http://store:5984/projects/plan"),
        (StoreRequest::UpdateDocument { id: "plan".to_string(), body: doc }, Method::Put, "http://store:5984/projects/plan"),
        (StoreRequest::CreateDocument { id: "plan".to_string(), body: new_doc }, Method::Put, "http://store:5984/projects/plan"),
        (StoreRequest::GetUserPayload { email: "a@x.com".to_string() }, Method::Get, "http://store:5984/users/a@x.com"),
        (StoreRequest::GetUser { email: "a@x.com".to_string() }, Method::Get, "http://store:5984/users/a@x.com"),
        (
            StoreRequest::UpdateUser { email: "a@x.com".to_string(), body: UserPayload::new(u.clone(), "2-b".to_string()) },
            Method::Put,
            "http://store:5984/users/a@x.com",
        ),
        (StoreRequest::CreateUser { email: "a@x.com".to_string(), body: u }, Method::Put, "http://store:5984/users/a@x.com"),
        (
            StoreRequest::DeleteUser { email: "a@x.com".to_string(), rev: "2-b".to_string() },
            Method::Delete,
            "http://store:5984/users/a@x.com?rev=2-b",
        ),
    ];
    for (request, method, url) in cases {
        assert_eq!(db.method_of(&request), method);
        assert_eq!(db.url_of(&request), url);
    }
}

#[test]
fn user_payload_keeps_user_and_revision() {
    let u = user("a@x.com", true, "h", "s", &["d1", "d2"]);
    let payload = UserPayload::new(u.clone(), "3-c".to_string());
    assert_eq!(payload.rev(), "3-c");
    assert_eq!(payload.user(), u);
    assert_eq!(payload.email, "a@x.com");
    assert_eq!(payload.uuids, vec!["d1".to_string(), "d2".to_string()]);
}

#[test]
fn get_document_tells_missing_from_unreachable() {
    let db = db();
    let mut store = FakeStore::new();
    assert_eq!(store.get_document(&db, "plan"), Err(StoreError::NotFound));
    store.down = true;
    assert_eq!(store.get_document(&db, "plan"), Err(StoreError::Transport));
}

#[test]
fn get_document_done_and_data() {
    let db = db();
    let doc = Document { id: Some("plan".to_string()), rev: Some("1-a".to_string()), data: text("A") };
    assert_eq!(db.get_document_data(Ok(StoreReply::Document(doc))), Ok(text("A")));
    assert_eq!(db.get_document_data(Err(StoreError::NotFound)), Err(StoreError::NotFound));
    assert_eq!(db.get_document_done(Ok(StoreReply::Accepted)), Err(StoreError::Transport));
    assert_eq!(db.get_user_done(Ok(StoreReply::Accepted)), Err(StoreError::Transport));
    assert_eq!(db.get_user_payload_done(Ok(StoreReply::Accepted)), Err(StoreError::Transport));
    assert_eq!(db.get_user_payload_done(Err(StoreError::NotFound)), Err(StoreError::NotFound));
    assert_eq!(
        db.get_user_payload(&"a@x.com".to_string()),
        StoreRequest::GetUserPayload { email: "a@x.com".to_string() }
    );
}

#[test]
fn first_put_creates_the_document_without_revision() {
    let db = db();
    let mut store = FakeStore::new();
    assert_eq!(store.put_document(&db, "plan", text("A")), Ok(stored("plan", 1, text("A"))));
    assert_eq!(
        store.log,
        vec![
            "GET http://store:5984/projects/plan",
            "PUT http://store:5984/projects/plan",
            "GET http://store:5984/projects/plan",
        ]
    );
    let shown = store.get_document(&db, "plan").unwrap();
    assert_eq!(shown.data, text("A"));
    assert_eq!(shown.id, Some("plan".to_string()));
}

#[test]
fn second_put_replaces_the_payload_under_a_new_revision() {
    let db = db();
    let mut store = FakeStore::new();
    store.put_document(&db, "plan", text("A")).unwrap();
    let first = store.get_document(&db, "plan").unwrap();
    store.log.clear();
    let returned = store.put_document(&db, "plan", text("B")).unwrap();
    assert_eq!(returned, stored("plan", 2, text("B")));
    assert_eq!(
        store.log,
        vec![
            "GET http://store:5984/projects/plan",
            "PUT http://store:5984/projects/plan",
            "GET http://store:5984/projects/plan",
        ]
    );
    let second = store.get_document(&db, "plan").unwrap();
    assert_eq!(second, returned);
    assert_eq!(second.data, text("B"));
    assert_ne!(second.rev, first.rev);
}

#[test]
fn update_carries_the_revision_that_was_fetched() {
    let db = db();
    let (state, request) = db.put_document("plan", text("B"));
    assert_eq!(request, StoreRequest::GetDocument { id: "plan".to_string() });
    let current = Document { id: Some("plan".to_string()), rev: Some("7-x".to_string()), data: text("A") };
    let step = db.put_document_step(state, Ok(StoreReply::Document(current)));
    assert_eq!(
        step,
        Progress::Next(
            PutDocument::Updating { id: "plan".to_string() },
            StoreRequest::UpdateDocument {
                id: "plan".to_string(),
                body: Document { id: Some("plan".to_string()), rev: Some("7-x".to_string()), data: text("B") },
            },
        )
    );
}

#[test]
fn creation_carries_no_revision_and_is_followed_by_a_fetch() {
    let db = db();
    let (state, _) = db.put_document("plan", text("A"));
    let step = db.put_document_step(state, Err(StoreError::NotFound));
    assert_eq!(
        step,
        Progress::Next(
            PutDocument::Creating { id: "plan".to_string() },
            StoreRequest::CreateDocument {
                id: "plan".to_string(),
                body: NewDocument { id: "plan".to_string(), data: text("A") },
            },
        )
    );
    let step = db.put_document_step(PutDocument::Creating { id: "plan".to_string() }, Ok(StoreReply::Accepted));
    assert_eq!(step, Progress::Next(PutDocument::Refetching, StoreRequest::GetDocument { id: "plan".to_string() }));
    let step = db.put_document_step(
        PutDocument::Refetching,
        Ok(StoreReply::Document(Document { id: Some("plan".to_string()), rev: Some("1-a".to_string()), data: text("A") })),
    );
    assert_eq!(
        step,
        Progress::Finished(Ok(Document { id: Some("plan".to_string()), rev: Some("1-a".to_string()), data: text("A") }))
    );
    let step = db.put_document_step(PutDocument::Updating { id: "plan".to_string() }, Ok(StoreReply::Accepted));
    assert_eq!(step, Progress::Next(PutDocument::Refetching, StoreRequest::GetDocument { id: "plan".to_string() }));
}

#[test]
fn failed_fetch_is_never_taken_as_leave_to_create() {
    let db = db();
    let (state, _) = db.put_document("plan", text("A"));
    assert_eq!(
        db.put_document_step(state, Err(StoreError::Transport)),
        Progress::Finished(Err(StoreError::Transport))
    );
    let (state, _) = db.put_user(user("a@x.com", false, "h", "s", &[]));
    assert_eq!(db.put_user_step(state, Err(StoreError::Transport)), Progress::Finished(Err(StoreError::Transport)));
    let mut store = FakeStore::new();
    store.down = true;
    assert_eq!(store.put_document(&db, "plan", text("A")), Err(StoreError::Transport));
    assert_eq!(store.log, vec!["GET http://store:5984/projects/plan"]);
    assert!(store.projects.is_empty());
}

#[test]
fn failed_write_is_handed_on() {
    let db = db();
    assert_eq!(
        db.put_document_step(PutDocument::Updating { id: "plan".to_string() }, Err(StoreError::Transport)),
        Progress::Finished(Err(StoreError::Transport))
    );
    assert_eq!(
        db.put_document_step(PutDocument::Creating { id: "plan".to_string() }, Err(StoreError::Transport)),
        Progress::Finished(Err(StoreError::Transport))
    );
    assert_eq!(
        db.put_document_step(PutDocument::Refetching, Err(StoreError::NotFound)),
        Progress::Finished(Err(StoreError::NotFound))
    );
    assert_eq!(
        db.put_document_step(PutDocument::Refetching, Ok(StoreReply::Accepted)),
        Progress::Finished(Err(StoreError::Transport))
    );
}

#[test]
fn stale_revision_is_refused_by_the_store() {
    let db = db();
    let mut store = FakeStore::new();
    store.put_document(&db, "plan", text("A")).unwrap();
    let (state, request) = db.put_document("plan", text("B"));
    let fetched = store.serve(&db, &request);
    let (state, request) = match db.put_document_step(state, fetched) {
        Progress::Next(s, r) => (s, r),
        Progress::Finished(_) => panic!("an update was expected"),
    };
    // another writer gets in between
    store.put_document(&db, "plan", text("C")).unwrap();
    let refused = store.serve(&db, &request);
    assert_eq!(refused, Err(StoreError::Transport));
    assert_eq!(db.put_document_step(state, refused), Progress::Finished(Err(StoreError::Transport)));
    assert_eq!(store.get_document(&db, "plan").unwrap().data, text("C"));
}

#[test]
fn put_user_on_existing_user_keeps_hash_and_salt() {
    let db = db();
    let mut store = FakeStore::new();
    let initial = user("a@x.com", false, "hash-1", "salt-1", &["d1"]);
    assert_eq!(store.put_user(&db, initial.clone()), Ok(initial.clone()));
    let mut edited = initial.clone();
    edited.newsletter = true;
    assert_eq!(store.put_user(&db, edited.clone()), Ok(edited));
    let shown = store.get_user(&db, "a@x.com").unwrap();
    assert_eq!(shown.hashed, "hash-1");
    assert_eq!(shown.salt, "salt-1");
    assert!(shown.newsletter);
    assert_eq!(shown.uuids, vec!["d1".to_string()]);
}

#[test]
fn put_user_does_not_let_the_caller_overwrite_credentials() {
    let db = db();
    let mut store = FakeStore::new();
    store.put_user(&db, user("a@x.com", false, "hash-1", "salt-1", &[])).unwrap();
    let incoming = user("a@x.com", true, "", "", &["d1", "d2"]);
    assert_eq!(store.put_user(&db, incoming.clone()), Ok(incoming));
    assert_eq!(
        store.get_user(&db, "a@x.com"),
        Ok(user("a@x.com", true, "hash-1", "salt-1", &["d1", "d2"]))
    );
}

#[test]
fn put_user_steps() {
    let db = db();
    let incoming = user("a@x.com", true, "new-hash", "new-salt", &["d9"]);
    let (state, request) = db.put_user(incoming.clone());
    assert_eq!(state, PutUser::Fetching { user: incoming.clone() });
    assert_eq!(request, StoreRequest::GetUserPayload { email: "a@x.com".to_string() });
    let current = UserPayload::new(user("a@x.com", false, "old-hash", "old-salt", &["d1"]), "4-r".to_string());
    let step = db.put_user_step(state, Ok(StoreReply::UserPayload(current)));
    assert_eq!(
        step,
        Progress::Next(
            PutUser::Updating { user: incoming.clone() },
            StoreRequest::UpdateUser {
                email: "a@x.com".to_string(),
                body: UserPayload::new(user("a@x.com", true, "old-hash", "old-salt", &["d9"]), "4-r".to_string()),
            },
        )
    );
    assert_eq!(
        db.put_user_step(PutUser::Updating { user: incoming.clone() }, Ok(StoreReply::Accepted)),
        Progress::Finished(Ok(incoming.clone()))
    );
    let (state, _) = db.put_user(incoming.clone());
    assert_eq!(
        db.put_user_step(state, Err(StoreError::NotFound)),
        Progress::Next(
            PutUser::Creating { email: "a@x.com".to_string() },
            StoreRequest::CreateUser { email: "a@x.com".to_string(), body: incoming.clone() },
        )
    );
    assert_eq!(
        db.put_user_step(PutUser::Creating { email: "a@x.com".to_string() }, Ok(StoreReply::Accepted)),
        Progress::Next(PutUser::Refetching, StoreRequest::GetUser { email: "a@x.com".to_string() })
    );
    assert_eq!(
        db.put_user_step(PutUser::Refetching, Ok(StoreReply::User(incoming.clone()))),
        Progress::Finished(Ok(incoming))
    );
    assert_eq!(
        db.put_user_step(PutUser::Refetching, Ok(StoreReply::Accepted)),
        Progress::Finished(Err(StoreError::Transport))
    );
    assert_eq!(
        db.put_user_step(PutUser::Creating { email: "a@x.com".to_string() }, Err(StoreError::Transport)),
        Progress::Finished(Err(StoreError::Transport))
    );
}

#[test]
fn put_user_creates_a_missing_user_as_given() {
    let db = db();
    let mut store = FakeStore::new();
    let incoming = user("a@x.com", true, "hash-1", "salt-1", &[]);
    assert_eq!(store.put_user(&db, incoming.clone()), Ok(incoming.clone()));
    assert_eq!(
        store.log,
        vec![
            "GET http://store:5984/users/a@x.com",
            "PUT http://store:5984/users/a@x.com",
            "GET http://store:5984/users/a@x.com",
        ]
    );
    assert_eq!(store.get_user(&db, "a@x.com"), Ok(incoming));
}

#[test]
fn delete_user_is_not_idempotent() {
    let db = db();
    let mut store = FakeStore::new();
    store.put_user(&db, user("a@x.com", false, "h", "s", &[])).unwrap();
    store.log.clear();
    assert_eq!(store.delete_user(&db, "a@x.com"), Ok(true));
    assert_eq!(
        store.log,
        vec!["GET http://store:5984/users/a@x.com", "DELETE http://store:5984/users/a@x.com?rev=1-rev"]
    );
    assert_eq!(store.get_user(&db, "a@x.com"), Err(StoreError::NotFound));
    assert_eq!(store.delete_user(&db, "a@x.com"), Err(StoreError::NotFound));
}

#[test]
fn delete_user_steps() {
    let db = db();
    let (state, request) = db.delete_user("a@x.com");
    assert_eq!(state, DeleteUser::Fetching { email: "a@x.com".to_string() });
    assert_eq!(request, StoreRequest::GetUserPayload { email: "a@x.com".to_string() });
    let current = UserPayload::new(user("a@x.com", false, "h", "s", &[]), "5-z".to_string());
    assert_eq!(
        db.delete_user_step(state, Ok(StoreReply::UserPayload(current))),
        Progress::Next(
            DeleteUser::Deleting,
            StoreRequest::DeleteUser { email: "a@x.com".to_string(), rev: "5-z".to_string() },
        )
    );
    assert_eq!(db.delete_user_step(DeleteUser::Deleting, Ok(StoreReply::Accepted)), Progress::Finished(Ok(true)));
    assert_eq!(
        db.delete_user_step(DeleteUser::Deleting, Err(StoreError::Transport)),
        Progress::Finished(Err(StoreError::Transport))
    );
    assert_eq!(
        db.delete_user_step(DeleteUser::Fetching { email: "a@x.com".to_string() }, Err(StoreError::Transport)),
        Progress::Finished(Err(StoreError::Transport))
    );
    assert_eq!(
        db.delete_user_step(DeleteUser::Fetching { email: "a@x.com".to_string() }, Ok(StoreReply::Accepted)),
        Progress::Finished(Err(StoreError::Transport))
    );
}

#[test]
fn payload_of_any_json_shape_is_carried_through() {
    let db = db();
    let mut store = FakeStore::new();
    let payload: Value = serde_json::from_str("{\"name\":\"plan\",\"tasks\":[1,2,{\"done\":true}],\"none\":null}").unwrap();
    assert_eq!(store.put_document(&db, "plan", payload.clone()), Ok(stored("plan", 1, payload.clone())));
    assert_eq!(store.put_document(&db, "plan", payload.clone()), Ok(stored("plan", 2, payload.clone())));
    assert_eq!(store.get_document(&db, "plan").unwrap().data, payload);
}
