//! The identity store: activated users, pending registrations, sessions
//! and one-time reset codes, all held in memory.
//!
//! Every operation is specified over `IdentityState`, the mathematical
//! content of the store.  Operations that draw a random identifier or read
//! the clock come in pairs: one takes those values as arguments and is
//! specified exactly, the other obtains them and says what holds whatever
//! they turned out to be.

use crate::clock;
use crate::hasher::{hash_password, new_salt, password_hash};
use crate::strmap::StrMap;
use crate::token::{is_uuid_text, random_uuid};
use vstd::prelude::*;
use vstd::string::*;

verus! {

/// How long a session lasts: 24 hours, in nanoseconds.
pub const SESSION_LIFETIME_NANOS: i128 = 86_400_000_000_000;

/// One account.
#[derive(Debug, PartialEq)]
pub struct User {
    pub email: String,
    pub newsletter: bool,
    pub hashed: String,
    pub salt: String,
    pub uuids: Vec<String>,
}

/// The content of a `User`.
pub struct UserView {
    pub email: Seq<char>,
    pub newsletter: bool,
    pub hashed: Seq<char>,
    pub salt: Seq<char>,
    pub uuids: Seq<Seq<char>>,
}

impl View for User {
    type V = UserView;

    open spec fn view(&self) -> UserView {
        UserView {
            email: self.email@,
            newsletter: self.newsletter,
            hashed: self.hashed@,
            salt: self.salt@,
            uuids: self.uuids.deep_view(),
        }
    }
}

/// A user as it is first created: with no document ids.
pub open spec fn fresh_user(
    email: Seq<char>,
    newsletter: bool,
    hashed: Seq<char>,
    salt: Seq<char>,
) -> UserView {
    UserView { email, newsletter, hashed, salt, uuids: Seq::empty() }
}

/// A copy of a list of strings.
pub fn clone_strings(list: &Vec<String>) -> (copy: Vec<String>)
    ensures
        copy.deep_view() == list.deep_view(),
{
    let mut copy: Vec<String> = Vec::new();
    let mut i: usize = 0;
    while i < list.len()
        invariant
            i <= list@.len(),
            copy@.len() == i,
            forall|j: int| 0 <= j < i ==> copy@[j]@ == list@[j]@,
        decreases list@.len() - i,
    {
        copy.push(list[i].clone());
        i += 1;
    }
    assert(copy.deep_view() =~= list.deep_view());
    copy
}

impl Clone for User {
    fn clone(&self) -> (copy: Self)
        ensures
            copy@ == self@,
    {
        User {
            email: self.email.clone(),
            newsletter: self.newsletter,
            hashed: self.hashed.clone(),
            salt: self.salt.clone(),
            uuids: clone_strings(&self.uuids),
        }
    }
}

/// One authenticated session.
pub struct SessionToken {
    token: String,
    user_id: String,
    created_at: i128,
    expires_at: i128,
    last_used: i128,
    device_info: String,
    is_revoked: bool,
}

/// The content of a `SessionToken`; times are nanoseconds since the Unix
/// epoch.
pub struct SessionView {
    pub token: Seq<char>,
    pub user_id: Seq<char>,
    pub created_at: int,
    pub expires_at: int,
    pub last_used: int,
    pub device_info: Seq<char>,
    pub is_revoked: bool,
}

impl SessionView {
    /// A session is valid while it is not revoked and has not expired.
    pub open spec fn valid_at(self, now: int) -> bool {
        !self.is_revoked && now < self.expires_at
    }
}

/// The session that is issued at time `now`.
pub open spec fn issued_session(
    token: Seq<char>,
    user_id: Seq<char>,
    device_info: Seq<char>,
    now: int,
) -> SessionView {
    SessionView {
        token,
        user_id,
        created_at: now,
        expires_at: now + SESSION_LIFETIME_NANOS,
        last_used: now,
        device_info,
        is_revoked: false,
    }
}

impl View for SessionToken {
    type V = SessionView;

    closed spec fn view(&self) -> SessionView {
        SessionView {
            token: self.token@,
            user_id: self.user_id@,
            created_at: self.created_at as int,
            expires_at: self.expires_at as int,
            last_used: self.last_used as int,
            device_info: self.device_info@,
            is_revoked: self.is_revoked,
        }
    }
}

impl SessionToken {
    /// The session issued at `now` under the identifier `token`.
    pub fn issue(token: String, user_id: String, device_info: String, now: i128) -> (session: Self)
        requires
            now + SESSION_LIFETIME_NANOS <= i128::MAX,
        ensures
            session@ == issued_session(token@, user_id@, device_info@, now as int),
    {
        SessionToken {
            token,
            user_id,
            created_at: now,
            expires_at: now + SESSION_LIFETIME_NANOS,
            last_used: now,
            device_info,
            is_revoked: false,
        }
    }

    /// A session issued at the time that the clock shows, under a random
    /// identifier.
    pub fn new(user_id: String, device_info: String) -> (session: Self)
        ensures
            is_uuid_text(session@.token),
            clock::is_reading(session@.created_at),
            session@ == issued_session(
                session@.token,
                user_id@,
                device_info@,
                session@.created_at,
            ),
    {
        let now = clock::now();
        let token = random_uuid();
        SessionToken::issue(token, user_id, device_info, now)
    }

    /// Whether the session is valid at `now`.
    pub fn is_valid_at(&self, now: i128) -> (valid: bool)
        ensures
            valid == self@.valid_at(now as int),
    {
        !self.is_revoked && self.expires_at > now
    }

    /// Whether the session is valid by the clock: the answer is the
    /// session's validity at the time that the clock shows.  A revoked
    /// session never is valid.
    pub fn is_valid(&self) -> (valid: bool)
        ensures
            valid ==> !self@.is_revoked,
            (exists|now: int|
                #![trigger self@.valid_at(now)]
                clock::is_reading(now) && valid == self@.valid_at(now)),
    {
        let now = clock::now();
        let valid = self.is_valid_at(now);
        assert(clock::is_reading(now as int) && valid == self@.valid_at(now as int));
        valid
    }

    /// Records `now` as the time of last use.
    pub fn set_last_used(&mut self, now: i128)
        ensures
            final(self)@ == (SessionView { last_used: now as int, ..old(self)@ }),
    {
        self.last_used = now;
    }

    /// Records the time that the clock shows as the time of last use, and
    /// leaves the rest of the session as it was.
    pub fn update_last_used(&mut self)
        ensures
            final(self)@ == (SessionView { last_used: final(self)@.last_used, ..old(self)@ }),
            clock::is_reading(final(self)@.last_used),
    {
        let now = clock::now();
        self.set_last_used(now);
    }

    /// The identifier of the session.
    pub fn token(&self) -> (token: &String)
        ensures
            token@ == self@.token,
    {
        &self.token
    }

    /// The email that the session authenticates.
    pub fn user_id(&self) -> (user_id: &String)
        ensures
            user_id@ == self@.user_id,
    {
        &self.user_id
    }
}

/// The content of the identity store.
pub struct IdentityState {
    /// Activated users, by email.
    pub users: Map<Seq<char>, UserView>,
    /// Sessions, by session token.
    pub sessions: Map<Seq<char>, SessionView>,
    /// The email that each one-time reset code stands for.
    pub one_time_codes: Map<Seq<char>, Seq<char>>,
    /// Pending registrations, by activation token.
    pub pre_registered: Map<Seq<char>, UserView>,
}

impl IdentityState {
    /// The store with nothing in it.
    pub open spec fn empty() -> Self {
        IdentityState {
            users: Map::empty(),
            sessions: Map::empty(),
            one_time_codes: Map::empty(),
            pre_registered: Map::empty(),
        }
    }

    /// Every user is filed under its own email and every session under its
    /// own token.
    pub open spec fn keyed(self) -> bool {
        &&& forall|k: Seq<char>| #[trigger] self.users.contains_key(k) ==> self.users[k].email == k
        &&& forall|k: Seq<char>| #[trigger]
            self.sessions.contains_key(k) ==> self.sessions[k].token == k
    }

    /// The store with `user` filed under its email.
    pub open spec fn insert_user(self, user: UserView) -> Self {
        IdentityState { users: self.users.insert(user.email, user), ..self }
    }

    /// The store without the user of `email`.
    pub open spec fn remove_user(self, email: Seq<char>) -> Self {
        IdentityState { users: self.users.remove(email), ..self }
    }

    /// The store with `user` pending under `token`.
    pub open spec fn pre_register(self, token: Seq<char>, user: UserView) -> Self {
        IdentityState { pre_registered: self.pre_registered.insert(token, user), ..self }
    }

    /// The registration that is pending under `token`.
    pub open spec fn pending(self, token: Seq<char>) -> Option<UserView> {
        if self.pre_registered.contains_key(token) {
            Some(self.pre_registered[token])
        } else {
            None
        }
    }

    /// Activation: the registration pending under `token` leaves the
    /// pending table and becomes a user.  Without such a registration
    /// nothing changes.
    pub open spec fn register(self, token: Seq<char>) -> Self {
        match self.pending(token) {
            Some(user) => IdentityState {
                users: self.users.insert(user.email, user),
                pre_registered: self.pre_registered.remove(token),
                ..self
            },
            None => self,
        }
    }

    /// The store with `session` filed under its token.
    pub open spec fn open_session(self, session: SessionView) -> Self {
        IdentityState { sessions: self.sessions.insert(session.token, session), ..self }
    }

    /// The store without the session of `token`.
    pub open spec fn logout(self, token: Seq<char>) -> Self {
        IdentityState { sessions: self.sessions.remove(token), ..self }
    }

    /// The store without any session of the user `email`; every other
    /// session is as it was.
    pub open spec fn logout_user(self, email: Seq<char>) -> Self {
        IdentityState {
            sessions: Map::new(
                |k: Seq<char>| self.sessions.contains_key(k) && self.sessions[k].user_id != email,
                |k: Seq<char>| self.sessions[k],
            ),
            ..self
        }
    }

    /// The store after the account `email` was deleted by the holder of
    /// the session `token`: that session, every session of the account and
    /// the user itself are gone.
    pub open spec fn delete_account(self, token: Seq<char>, email: Seq<char>) -> Self {
        self.logout(token).logout_user(email).remove_user(email)
    }

    /// A session exists for `token` and has not been revoked.
    pub open spec fn session_live(self, token: Seq<char>) -> bool {
        self.sessions.contains_key(token) && !self.sessions[token].is_revoked
    }

    /// A session exists for `token` and is valid at `now`.
    pub open spec fn session_valid(self, token: Seq<char>, now: int) -> bool {
        self.sessions.contains_key(token) && self.sessions[token].valid_at(now)
    }

    /// The email that the session of `token` authenticates.
    pub open spec fn email_for_token(self, token: Seq<char>) -> Option<Seq<char>> {
        if self.sessions.contains_key(token) {
            Some(self.sessions[token].user_id)
        } else {
            None
        }
    }

    /// The store with the reset code `code` standing for `email`.
    pub open spec fn insert_code(self, code: Seq<char>, email: Seq<char>) -> Self {
        IdentityState { one_time_codes: self.one_time_codes.insert(code, email), ..self }
    }

    /// The email that the reset code `code` stands for.
    pub open spec fn email_for_code(self, code: Seq<char>) -> Option<Seq<char>> {
        if self.one_time_codes.contains_key(code) {
            Some(self.one_time_codes[code])
        } else {
            None
        }
    }

    /// The store without the reset code `code`.
    pub open spec fn remove_code(self, code: Seq<char>) -> Self {
        IdentityState { one_time_codes: self.one_time_codes.remove(code), ..self }
    }
}

/// The identity store.
pub struct UserManager {
    users_cache: StrMap<User>,
    session_cache: StrMap<SessionToken>,
    one_time_codes: StrMap<String>,
    pre_registered: StrMap<User>,
}

impl View for UserManager {
    type V = IdentityState;

    closed spec fn view(&self) -> IdentityState {
        IdentityState {
            users: self.users_cache@,
            sessions: self.session_cache@,
            one_time_codes: self.one_time_codes@,
            pre_registered: self.pre_registered@,
        }
    }
}

impl UserManager {
    /// Every user in memory is filed under its own email, and every
    /// session under its own token.
    #[verifier::type_invariant]
    spec fn filed_by_key(&self) -> bool {
        &&& forall|k: Seq<char>| #[trigger]
            self.users_cache@.contains_key(k) ==> self.users_cache@[k].email == k
        &&& forall|k: Seq<char>| #[trigger]
            self.session_cache@.contains_key(k) ==> self.session_cache@[k].token == k
    }

    /// The empty store.
    pub fn new() -> (manager: Self)
        ensures
            manager@ == IdentityState::empty(),
    {
        UserManager {
            users_cache: StrMap::new(),
            session_cache: StrMap::new(),
            one_time_codes: StrMap::new(),
            pre_registered: StrMap::new(),
        }
    }

    /// Whether a user of `email` is in the store.
    pub fn user_exists(&self, email: &str) -> (exists_here: bool)
        ensures
            exists_here == self@.users.contains_key(email@),
    {
        self.users_cache.contains_key(email)
    }

    /// The user of `email`.
    pub fn get_user(&self, email: &str) -> (found: Option<&User>)
        ensures
            match found {
                Some(user) => self@.users.contains_key(email@) && user@ == self@.users[email@]
                    && user@.email == email@,
                None => !self@.users.contains_key(email@),
            },
    {
        proof {
            use_type_invariant(self);
        }
        self.users_cache.get(email)
    }

    /// Takes the user of `email` out of the store.
    pub fn remove_user(&mut self, email: &str)
        ensures
            final(self)@ == old(self)@.remove_user(email@),
    {
        proof {
            use_type_invariant(&*self);
        }
        let mut taken: StrMap<User> = StrMap::new();
        std::mem::swap(&mut self.users_cache, &mut taken);
        let _ = taken.remove(email);
        self.users_cache = taken;
    }

    /// Files `user` under its email, in place of any user filed there.
    pub fn insert_user(&mut self, user: User)
        ensures
            final(self)@ == old(self)@.insert_user(user@),
    {
        proof {
            use_type_invariant(&*self);
        }
        let mut taken: StrMap<User> = StrMap::new();
        std::mem::swap(&mut self.users_cache, &mut taken);
        taken.insert(user.email.clone(), user);
        self.users_cache = taken;
    }

    /// Whether `uuid` names a session that is valid at `now`.
    pub fn session_token_valid_at(&self, uuid: String, now: i128) -> (valid: bool)
        ensures
            valid == self@.session_valid(uuid@, now as int),
    {
        match self.session_cache.get(uuid.as_str()) {
            Some(token) => token.is_valid_at(now),
            None => false,
        }
    }

    /// Whether `uuid` names a session that is valid by the clock: the
    /// answer is what `session_token_valid_at` gives for the time that the
    /// clock shows.  An unknown or revoked session never is valid; the
    /// store is left as it was.
    pub fn session_token_valid(&self, uuid: String) -> (valid: bool)
        ensures
            valid ==> self@.session_live(uuid@),
            (exists|now: int|
                #![trigger self@.session_valid(uuid@, now)]
                clock::is_reading(now) && valid == self@.session_valid(uuid@, now)),
    {
        match self.session_cache.get(uuid.as_str()) {
            Some(token) => {
                let valid = token.is_valid();
                proof {
                    let shown = choose|now: int|
                        #![trigger token@.valid_at(now)]
                        clock::is_reading(now) && valid == token@.valid_at(now);
                    assert(clock::is_reading(shown) && valid == self@.session_valid(uuid@, shown));
                }
                valid
            },
            None => {
                assert(clock::is_reading(0) && !self@.session_valid(uuid@, 0));
                false
            },
        }
    }

    /// Activates the registration pending under `uuid`.  The token is
    /// used up by it: a second call with the same token fails.
    pub fn register(&mut self, uuid: String) -> (r: Result<User, &'static str>)
        ensures
            final(self)@ == old(self)@.register(uuid@),
            match old(self)@.pending(uuid@) {
                Some(pending) => (r matches Ok(user) && user@ == pending),
                None => (r matches Err(msg) && msg@ == "User not found"@),
            },
    {
        proof {
            use_type_invariant(&*self);
        }
        let mut pending: StrMap<User> = StrMap::new();
        std::mem::swap(&mut self.pre_registered, &mut pending);
        let found = pending.remove(uuid.as_str());
        self.pre_registered = pending;
        match found {
            Some(user) => {
                let copy = user.clone();
                let mut users: StrMap<User> = StrMap::new();
                std::mem::swap(&mut self.users_cache, &mut users);
                users.insert(user.email.clone(), user);
                self.users_cache = users;
                Ok(copy)
            },
            None => {
                assert(self.pre_registered@ =~= old(self).pre_registered@);
                Err("User not found")
            },
        }
    }

    /// The tokens of all sessions in the store, each once.
    pub fn session_tokens(&self) -> (tokens: Vec<String>)
        ensures
            forall|i: int, j: int|
                0 <= i < tokens@.len() && 0 <= j < tokens@.len() && i != j ==> tokens@[i]@
                    != tokens@[j]@,
            forall|i: int|
                0 <= i < tokens@.len() ==> self@.sessions.contains_key(#[trigger] tokens@[i]@),
            forall|k: Seq<char>|
                self@.sessions.contains_key(k) ==> (exists|i: int|
                    0 <= i < tokens@.len() && tokens@[i]@ == k),
    {
        self.session_cache.keys()
    }

    /// Files a registration of `email` as pending under `token`, with the
    /// given password hash and salt, and hands the token back.
    pub fn pre_register_with(
        &mut self,
        email: String,
        newsletter: bool,
        hashed: String,
        salt: String,
        token: String,
    ) -> (handed: String)
        ensures
            handed@ == token@,
            final(self)@ == old(self)@.pre_register(
                token@,
                fresh_user(email@, newsletter, hashed@, salt@),
            ),
    {
        proof {
            use_type_invariant(&*self);
        }
        let user = User { email, newsletter, hashed, salt, uuids: Vec::new() };
        assert(user@ == fresh_user(email@, newsletter, hashed@, salt@)) by {
            assert(user.uuids.deep_view() =~= Seq::<Seq<char>>::empty());
        }
        let mut pending: StrMap<User> = StrMap::new();
        std::mem::swap(&mut self.pre_registered, &mut pending);
        pending.insert(token.clone(), user);
        self.pre_registered = pending;
        token
    }

    /// Pre-registration: draws a salt, hashes the password with it, and
    /// files the registration as pending under a random activation token,
    /// which is handed back.  Users, sessions and reset codes are untouched.
    pub fn pre_register(&mut self, email: String, password: String, newsletter: bool) -> (token:
        String)
        ensures
            is_uuid_text(token@),
            final(self)@.pre_registered.contains_key(token@),
            is_uuid_text(final(self)@.pre_registered[token@].salt),
            final(self)@.pre_registered[token@] == fresh_user(
                email@,
                newsletter,
                password_hash(password@, final(self)@.pre_registered[token@].salt),
                final(self)@.pre_registered[token@].salt,
            ),
            final(self)@ == old(self)@.pre_register(token@, final(self)@.pre_registered[token@]),
    {
        let salt = new_salt();
        let hashed = hash_password(password.as_str(), salt.as_str());
        let token = random_uuid();
        self.pre_register_with(email, newsletter, hashed, salt, token)
    }

    /// The stored form of `password` under `salt`.
    pub fn hash_password(&self, password: String, salt: String) -> (hashed: String)
        ensures
            hashed@ == password_hash(password@, salt@),
            hashed@.len() == 64,
    {
        hash_password(password.as_str(), salt.as_str())
    }

    /// Files `session` under its token and hands the token back.
    fn open_session(&mut self, session: SessionToken) -> (token: String)
        ensures
            token@ == session@.token,
            final(self)@ == old(self)@.open_session(session@),
    {
        proof {
            use_type_invariant(&*self);
        }
        let token = session.token().clone();
        let mut taken: StrMap<SessionToken> = StrMap::new();
        std::mem::swap(&mut self.session_cache, &mut taken);
        taken.insert(token.clone(), session);
        self.session_cache = taken;
        token
    }

    /// Login with everything from outside given: `hashed` is the hash of
    /// the password that was supplied, `now` the time and `token` the
    /// identifier for the new session.  It succeeds exactly when `hashed`
    /// is the user's stored hash, and then opens a session that lasts
    /// `SESSION_LIFETIME_NANOS`; otherwise the store is left as it was.
    pub fn login_with(&mut self, hashed: String, user: User, now: i128, token: String) -> (r:
        Result<String, &'static str>)
        requires
            now + SESSION_LIFETIME_NANOS <= i128::MAX,
        ensures
            hashed@ == user@.hashed ==> (r matches Ok(handed) && handed@ == token@)
                && final(self)@ == old(self)@.open_session(
                issued_session(token@, user@.email, Seq::empty(), now as int),
            ),
            hashed@ != user@.hashed ==> (r matches Err(msg) && msg@ == "Password is incorrect"@)
                && final(self)@ == old(self)@,
    {
        if !(hashed == user.hashed) {
            return Err("Password is incorrect");
        }
        let session = SessionToken::issue(token, user.email, String::new(), now);
        Ok(self.open_session(session))
    }

    /// Login: succeeds exactly when `password`, hashed with the user's
    /// salt, gives the user's stored hash.  On success a session is opened
    /// under a random token at the time that the clock shows, and the token
    /// is handed back; on failure the store is left as it was.
    pub fn login(&mut self, password: String, user: User) -> (r: Result<String, &'static str>)
        ensures
            r is Ok <==> password_hash(password@, user@.salt) == user@.hashed,
            match r {
                Ok(token) => is_uuid_text(token@) && final(self)@.sessions.contains_key(token@)
                    && clock::is_reading(final(self)@.sessions[token@].created_at) && final(self)@
                    == old(self)@.open_session(
                    issued_session(
                        token@,
                        user@.email,
                        Seq::empty(),
                        final(self)@.sessions[token@].created_at,
                    ),
                ),
                Err(msg) => msg@ == "Password is incorrect"@ && final(self)@ == old(self)@,
            },
    {
        let hashed = hash_password(password.as_str(), user.salt.as_str());
        if !(hashed == user.hashed) {
            return Err("Password is incorrect");
        }
        let session = SessionToken::new(user.email, String::new());
        Ok(self.open_session(session))
    }

    /// Removes the session of `uuid`; without such a session nothing
    /// changes.
    pub fn logout(&mut self, uuid: String)
        ensures
            final(self)@ == old(self)@.logout(uuid@),
    {
        proof {
            use_type_invariant(&*self);
        }
        let mut taken: StrMap<SessionToken> = StrMap::new();
        std::mem::swap(&mut self.session_cache, &mut taken);
        let _ = taken.remove(uuid.as_str());
        self.session_cache = taken;
    }

    /// Removes every session of the user `email`; every other session
    /// stays as it is.
    pub fn logout_user(&mut self, email: &str)
        ensures
            final(self)@ == old(self)@.logout_user(email@),
            forall|k: Seq<char>|
                final(self)@.sessions.contains_key(k) <==> (old(self)@.sessions.contains_key(k)
                    && old(self)@.sessions[k].user_id != email@),
            forall|k: Seq<char>|
                final(self)@.sessions.contains_key(k) ==> final(self)@.sessions[k]
                    == old(self)@.sessions[k],
            final(self)@.users == old(self)@.users,
            final(self)@.one_time_codes == old(self)@.one_time_codes,
            final(self)@.pre_registered == old(self)@.pre_registered,
    {
        proof {
            use_type_invariant(&*self);
        }
        let owner = email.to_owned();
        let tokens = self.session_cache.keys();
        let mut sessions: StrMap<SessionToken> = StrMap::new();
        std::mem::swap(&mut self.session_cache, &mut sessions);
        let ghost before = sessions@;
        let mut i: usize = 0;
        while i < tokens.len()
            invariant
                i <= tokens@.len(),
                owner@ == email@,
                forall|j: int| 0 <= j < tokens@.len() ==> before.contains_key(#[trigger] tokens@[j]@),
                forall|k: Seq<char>| #[trigger]
                    sessions@.contains_key(k) ==> before.contains_key(k) && sessions@[k]
                        == before[k],
                forall|k: Seq<char>|
                    before.contains_key(k) && before[k].user_id != email@
                        ==> #[trigger] sessions@.contains_key(k),
                forall|j: int|
                    0 <= j < i && before[tokens@[j]@].user_id == email@ ==> !sessions@.contains_key(
                        #[trigger] tokens@[j]@,
                    ),
            decreases tokens@.len() - i,
        {
            let of_owner = match sessions.get(tokens[i].as_str()) {
                Some(session) => *session.user_id() == owner,
                None => false,
            };
            if of_owner {
                let _ = sessions.remove(tokens[i].as_str());
            }
            i += 1;
        }
        proof {
            assert forall|k: Seq<char>| sessions@.contains_key(k) implies before[k].user_id
                != email@ by {
                let j = choose|j: int| 0 <= j < tokens@.len() && tokens@[j]@ == k;
                assert(tokens@[j]@ == k);
            }
            assert(sessions@ =~= old(self)@.logout_user(email@).sessions);
        }
        self.session_cache = sessions;
    }

    /// Lets the reset code `code` stand for `email`, and hands the code
    /// back.
    pub fn insert_reset_email_code_with(&mut self, email: String, code: String) -> (handed: String)
        ensures
            handed@ == code@,
            final(self)@ == old(self)@.insert_code(code@, email@),
    {
        proof {
            use_type_invariant(&*self);
        }
        let mut taken: StrMap<String> = StrMap::new();
        std::mem::swap(&mut self.one_time_codes, &mut taken);
        taken.insert(code.clone(), email);
        self.one_time_codes = taken;
        code
    }

    /// Draws a random reset code, lets it stand for `email`, and hands it
    /// back.
    pub fn insert_reset_email_code(&mut self, email: String) -> (code: String)
        ensures
            is_uuid_text(code@),
            final(self)@ == old(self)@.insert_code(code@, email@),
    {
        let code = random_uuid();
        self.insert_reset_email_code_with(email, code)
    }

    /// The email that the reset code `uuid` stands for.  The code stays in
    /// the store.
    pub fn get_email_from_code(&self, uuid: &str) -> (found: Option<String>)
        ensures
            match found {
                Some(email) => self@.email_for_code(uuid@) == Some(email@),
                None => self@.email_for_code(uuid@) is None,
            },
    {
        match self.one_time_codes.get(uuid) {
            Some(email) => Some(email.clone()),
            None => None,
        }
    }

    /// Uses up the reset code `code`.
    pub fn remove_reset_email_code(&mut self, code: &str)
        ensures
            final(self)@ == old(self)@.remove_code(code@),
    {
        proof {
            use_type_invariant(&*self);
        }
        let mut taken: StrMap<String> = StrMap::new();
        std::mem::swap(&mut self.one_time_codes, &mut taken);
        let _ = taken.remove(code);
        self.one_time_codes = taken;
    }

    /// The email that the session of `token` authenticates.
    pub fn get_email_from_token(&self, token: &str) -> (found: Option<String>)
        ensures
            match found {
                Some(email) => self@.email_for_token(token@) == Some(email@),
                None => self@.email_for_token(token@) is None,
            },
    {
        match self.session_cache.get(token) {
            Some(session) => Some(session.user_id().clone()),
            None => None,
        }
    }

    /// Files a replacement user for `email` with the given hash and salt
    /// and no document ids, and hands a copy back.
    pub fn change_password_with(
        &mut self,
        email: &str,
        newsletter: bool,
        hashed: String,
        salt: String,
    ) -> (user: User)
        ensures
            user@ == fresh_user(email@, newsletter, hashed@, salt@),
            final(self)@ == old(self)@.insert_user(user@),
    {
        proof {
            use_type_invariant(&*self);
        }
        let user = User { email: email.to_owned(), newsletter, hashed, salt, uuids: Vec::new() };
        assert(user@ == fresh_user(email@, newsletter, hashed@, salt@)) by {
            assert(user.uuids.deep_view() =~= Seq::<Seq<char>>::empty());
        }
        let copy = user.clone();
        let mut taken: StrMap<User> = StrMap::new();
        std::mem::swap(&mut self.users_cache, &mut taken);
        taken.insert(email.to_owned(), user);
        self.users_cache = taken;
        copy
    }

    /// Password change: draws a new salt, hashes `password` with it, and
    /// files a replacement user for `email` that has no document ids.  A
    /// copy of that user is handed back.
    pub fn change_password(&mut self, email: &str, password: &str, newsletter: bool) -> (user: User)
        ensures
            is_uuid_text(user@.salt),
            user@ == fresh_user(
                email@,
                newsletter,
                password_hash(password@, user@.salt),
                user@.salt,
            ),
            final(self)@ == old(self)@.insert_user(user@),
    {
        let salt = new_salt();
        let hashed = hash_password(password, salt.as_str());
        self.change_password_with(email, newsletter, hashed, salt)
    }

    /// Takes the user of `email` out of the store.
    pub fn delete_user(&mut self, email: &str)
        ensures
            final(self)@ == old(self)@.remove_user(email@),
    {
        proof {
            use_type_invariant(&*self);
        }
        let mut taken: StrMap<User> = StrMap::new();
        std::mem::swap(&mut self.users_cache, &mut taken);
        let _ = taken.remove(email);
        self.users_cache = taken;
    }
}

/// A registration that has just been filed is activated by its token, and
/// by that token once: the user that comes out has the email and the
/// newsletter flag of the registration and no document ids, it is then in
/// the store, and the token is pending no longer.
pub proof fn lemma_register_uses_token_once(
    state: IdentityState,
    token: Seq<char>,
    email: Seq<char>,
    newsletter: bool,
    hashed: Seq<char>,
    salt: Seq<char>,
)
    ensures
        ({
            let user = fresh_user(email, newsletter, hashed, salt);
            let filed = state.pre_register(token, user);
            let activated = filed.register(token);
            &&& filed.pending(token) == Some(user)
            &&& user.email == email
            &&& user.newsletter == newsletter
            &&& user.uuids.len() == 0
            &&& activated.users.contains_key(email)
            &&& activated.users[email] == user
            &&& activated.pending(token) is None
            &&& activated.register(token) == activated
        }),
{
}

/// A session that is opened at `now` is valid at `now` and at every time
/// before `now + SESSION_LIFETIME_NANOS`, and at no time from then on.
pub proof fn lemma_session_valid_for_lifetime(
    state: IdentityState,
    token: Seq<char>,
    user_id: Seq<char>,
    device_info: Seq<char>,
    now: int,
    later: int,
)
    requires
        now <= later,
    ensures
        ({
            let opened = state.open_session(issued_session(token, user_id, device_info, now));
            &&& opened.session_valid(token, now)
            &&& opened.session_valid(token, later) <==> later < now + SESSION_LIFETIME_NANOS
            &&& opened.email_for_token(token) == Some(user_id)
        }),
{
}

/// After logout the session is valid at no time, whatever the store held;
/// and logging out a token that names no session changes nothing.
pub proof fn lemma_logout_ends_session(state: IdentityState, token: Seq<char>, at: int)
    ensures
        !state.logout(token).session_valid(token, at),
        !state.logout(token).session_live(token),
        !state.sessions.contains_key(token) ==> state.logout(token) == state,
        state.logout(token).logout(token) == state.logout(token),
{
    assert(state.logout(token).sessions =~= state.logout(token).logout(token).sessions);
    if !state.sessions.contains_key(token) {
        assert(state.logout(token).sessions =~= state.sessions);
    }
}

/// A user that was put in memory ahead of the remote store is gone again
/// once it is taken out: neither activation nor a password change leaves a
/// user behind that the remote store refused.
pub proof fn lemma_rollback_leaves_no_user(
    state: IdentityState,
    token: Seq<char>,
    user: UserView,
)
    ensures
        !state.insert_user(user).remove_user(user.email).users.contains_key(user.email),
        state.pending(token) matches Some(pending) ==> !state.register(token).remove_user(
            pending.email,
        ).users.contains_key(pending.email),
        !state.users.contains_key(user.email) ==> state.insert_user(user).remove_user(user.email)
            == state,
{
    if !state.users.contains_key(user.email) {
        assert(state.insert_user(user).remove_user(user.email).users =~= state.users);
    }
}

/// Account deletion leaves no session of the deleted user behind, whoever
/// opened it and however many there were: afterwards no token leads to the
/// user's email, no session of the user is valid at any time, the caller's
/// session is gone, and the user is out of memory.  Sessions of other
/// users, other than the caller's, are as they were.
pub proof fn lemma_account_deletion_ends_sessions(
    state: IdentityState,
    token: Seq<char>,
    email: Seq<char>,
    other: Seq<char>,
    at: int,
)
    ensures
        ({
            let after = state.delete_account(token, email);
            &&& !after.users.contains_key(email)
            &&& !after.sessions.contains_key(token)
            &&& after.email_for_token(other) != Some(email)
            &&& state.email_for_token(other) == Some(email) ==> !after.session_valid(other, at)
            &&& other != token && state.sessions.contains_key(other)
                && state.sessions[other].user_id != email ==> after.sessions.contains_key(other)
                && after.sessions[other] == state.sessions[other]
            &&& after.one_time_codes == state.one_time_codes
            &&& after.pre_registered == state.pre_registered
        }),
{
}

/// Every operation of the store keeps users filed under their own email
/// and sessions under their own token.
pub proof fn lemma_operations_keep_keys(
    state: IdentityState,
    user: UserView,
    session: SessionView,
    key: Seq<char>,
    other: Seq<char>,
)
    requires
        state.keyed(),
    ensures
        IdentityState::empty().keyed(),
        state.insert_user(user).keyed(),
        state.remove_user(key).keyed(),
        state.pre_register(key, user).keyed(),
        state.register(key).keyed(),
        state.open_session(session).keyed(),
        state.logout(key).keyed(),
        state.logout_user(key).keyed(),
        state.insert_code(key, other).keyed(),
        state.remove_code(key).keyed(),
{
}

} // verus!
