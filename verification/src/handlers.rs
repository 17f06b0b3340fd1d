//! The operations of the service, one group of functions for each.
//!
//! An operation never waits for the store or the mailer itself.  Its first
//! function looks at the request and answers with a `Step`: either the
//! reply, or what to ask of the store or the mailer.  Once that has been
//! done, the outcome is handed to the operation's next function, and so on
//! until a reply comes out.  Operations behind the session guard are handed
//! the guard's verdict.

use crate::auth::{fresh_user, issued_session, IdentityState, User, UserManager, UserView};
use crate::config::AppConfig;
use crate::clock::is_reading;
use crate::db::{Document, StoreError};
use crate::hasher::password_hash;
use crate::text::{join3, join4};
use crate::token::is_uuid_text;
use crate::utils::{ApiResponse, Body, BodyView, Response, ResponseView};
use serde_json::Value;
use vstd::prelude::*;
use vstd::string::*;

verus! {

/// What a login request carries.
#[derive(Debug, PartialEq)]
pub struct LoginData {
    pub email: String,
    pub password: String,
}

/// What a pre-registration request carries.
#[derive(Debug, PartialEq)]
pub struct PreRegisterData {
    pub email: String,
    pub password: String,
    pub newsletter: bool,
}

/// What an activation request carries: the activation token.
#[derive(Debug, PartialEq)]
pub struct RegisterData {
    pub uuid: String,
}

/// What a request for a reset code carries.
#[derive(Debug, PartialEq)]
pub struct PreResetData {
    pub email: String,
}

/// What a password reset carries: the reset code and the new password.
#[derive(Debug, PartialEq)]
pub struct ResetData {
    pub uuid: String,
    pub password: String,
}

/// What a request to add a document id carries.
#[derive(Debug, PartialEq)]
pub struct AddUuid {
    pub uuid: String,
}

/// A mail to be sent.
#[derive(Debug, PartialEq)]
pub struct Email {
    pub to: String,
    pub subject: String,
    pub body: String,
}

/// The content of an `Email`.
pub struct EmailView {
    pub to: Seq<char>,
    pub subject: Seq<char>,
    pub body: Seq<char>,
}

impl View for Email {
    type V = EmailView;

    open spec fn view(&self) -> EmailView {
        EmailView { to: self.to@, subject: self.subject@, body: self.body@ }
    }
}

/// What an operation does next.
#[derive(Debug, PartialEq)]
pub enum Step {
    /// Answer the request.
    Respond(Response),
    /// Fetch the user `email` from the store.
    GetUser { email: String },
    /// Upsert `user` in the store.
    PutUser { user: User },
    /// Delete the user `email` from the store.
    DeleteUser { email: String },
    /// Fetch the payload of the project document `id` from the store.
    GetDocumentData { id: String },
    /// Upsert the project document `id` with payload `data`.
    PutDocument { id: String, data: Value },
    /// Send a mail.
    SendEmail(Email),
}

/// The content of a `Step`.
pub enum StepView {
    Respond(ResponseView),
    GetUser { email: Seq<char> },
    PutUser { user: UserView },
    DeleteUser { email: Seq<char> },
    GetDocumentData { id: Seq<char> },
    PutDocument { id: Seq<char>, data: Value },
    SendEmail(EmailView),
}

impl View for Step {
    type V = StepView;

    open spec fn view(&self) -> StepView {
        match *self {
            Step::Respond(response) => StepView::Respond(response@),
            Step::GetUser { email } => StepView::GetUser { email: email@ },
            Step::PutUser { user } => StepView::PutUser { user: user@ },
            Step::DeleteUser { email } => StepView::DeleteUser { email: email@ },
            Step::GetDocumentData { id } => StepView::GetDocumentData { id: id@ },
            Step::PutDocument { id, data } => StepView::PutDocument { id: id@, data },
            Step::SendEmail(mail) => StepView::SendEmail(mail@),
        }
    }
}

/// The characters of the guard's verdict.
pub open spec fn session_view(session: Result<String, ApiResponse>) -> Result<
    Seq<char>,
    ApiResponse,
> {
    match session {
        Ok(token) => Ok(token@),
        Err(e) => Err(e),
    }
}

/// The mail that carries an activation link.
pub open spec fn activation_mail(url: Seq<char>, to: Seq<char>, token: Seq<char>) -> EmailView {
    EmailView {
        to,
        subject: "Activate Account"@,
        body: "Click this link to activate your account: "@ + url + "/auth?activate="@ + token,
    }
}

/// The mail that carries a reset link.
pub open spec fn reset_mail(url: Seq<char>, to: Seq<char>, code: Seq<char>) -> EmailView {
    EmailView {
        to,
        subject: "Password Zurücksetzung"@,
        body: "Klicken Sie diesen Link um Ihr Password zurückzusetzen: "@ + url + "/auth?code="@
            + code,
    }
}

/// `list` without every occurrence of `item`, the rest in order.
pub open spec fn without(list: Seq<Seq<char>>, item: Seq<char>) -> Seq<Seq<char>>
    decreases list.len(),
{
    if list.len() == 0 {
        list
    } else if list.last() == item {
        without(list.drop_last(), item)
    } else {
        without(list.drop_last(), item).push(list.last())
    }
}

/// What removing a document id achieves: the id no longer occurs, every
/// other id occurs afterwards exactly if it occurred before, and a list
/// that did not hold the id is left as it was.
pub proof fn lemma_without(list: Seq<Seq<char>>, item: Seq<char>)
    ensures
        !without(list, item).contains(item),
        without(list, item).len() <= list.len(),
        forall|other: Seq<char>|
            other != item ==> (without(list, item).contains(other) <==> list.contains(other)),
        !list.contains(item) ==> without(list, item) == list,
    decreases list.len(),
{
    if list.len() > 0 {
        let front = list.drop_last();
        let last = list.last();
        let rest = without(front, item);
        lemma_without(front, item);
        assert(list =~= front.push(last));
        assert forall|other: Seq<char>| list.contains(other) <==> (front.contains(other) || other
            == last) by {
            if list.contains(other) {
                let i = choose|i: int| 0 <= i < list.len() && list[i] == other;
                if i < front.len() {
                    assert(front[i] == other);
                }
            }
            if front.contains(other) {
                let i = choose|i: int| 0 <= i < front.len() && front[i] == other;
                assert(list[i] == other);
            }
            if other == last {
                assert(list[list.len() - 1] == other);
            }
        }
        if last != item {
            let kept = rest.push(last);
            assert forall|other: Seq<char>| kept.contains(other) <==> (rest.contains(other) || other
                == last) by {
                if kept.contains(other) {
                    let i = choose|i: int| 0 <= i < kept.len() && kept[i] == other;
                    if i < rest.len() {
                        assert(rest[i] == other);
                    }
                }
                if rest.contains(other) {
                    let i = choose|i: int| 0 <= i < rest.len() && rest[i] == other;
                    assert(kept[i] == other);
                }
                if other == last {
                    assert(kept[kept.len() - 1] == other);
                }
            }
        }
    }
}

/// An id that is added and then removed leaves the list as removing it
/// alone would: in particular a list that did not hold the id is back as
/// it was.
pub proof fn lemma_add_then_remove(list: Seq<Seq<char>>, item: Seq<char>)
    ensures
        without(list.push(item), item) == without(list, item),
        !list.contains(item) ==> without(list.push(item), item) == list,
{
    assert(list.push(item).drop_last() =~= list);
    lemma_without(list, item);
}

/// A registration of `email` was filed as pending under `token`, with a
/// random salt and the hash of `password` under that salt, and nothing
/// else changed.
pub open spec fn filed_registration(
    before: IdentityState,
    after: IdentityState,
    email: Seq<char>,
    password: Seq<char>,
    newsletter: bool,
    token: Seq<char>,
) -> bool {
    &&& is_uuid_text(token)
    &&& after.pre_registered.contains_key(token)
    &&& is_uuid_text(after.pre_registered[token].salt)
    &&& after.pre_registered[token] == fresh_user(
        email,
        newsletter,
        password_hash(password, after.pre_registered[token].salt),
        after.pre_registered[token].salt,
    )
    &&& after == before.pre_register(token, after.pre_registered[token])
}

/// What a login attempt of `user` with `password` does: where the
/// password hashes to the stored hash, a session is opened under a random
/// token at the time that the clock shows, and the token is the reply;
/// otherwise the reply is `Unauthorized` and nothing changes.
pub open spec fn login_attempt(
    before: IdentityState,
    password: Seq<char>,
    user: UserView,
    after: IdentityState,
    response: ResponseView,
) -> bool {
    if password_hash(password, user.salt) == user.hashed {
        &&& response.status == 200
        &&& response.body matches BodyView::JsonString(token) && is_uuid_text(token)
            && after.sessions.contains_key(token) && is_reading(
            after.sessions[token].created_at,
        ) && after == before.open_session(
            issued_session(token, user.email, Seq::empty(), after.sessions[token].created_at),
        )
    } else {
        response == ApiResponse::Unauthorized.response() && after == before
    }
}

/// A random reset code was filed for `email`, the step is the mail that
/// carries it, and nothing else changed.
pub open spec fn reset_code_mailed(
    before: IdentityState,
    after: IdentityState,
    url: Seq<char>,
    email: Seq<char>,
    step: StepView,
) -> bool {
    step matches StepView::SendEmail(mail) && (exists|code: Seq<char>|
        #![trigger before.insert_code(code, email)]
        is_uuid_text(code) && after == before.insert_code(code, email) && mail == reset_mail(
            url,
            email,
            code,
        ))
}

/// The reply after a mail: success where it was sent, an internal error
/// where it was not.
pub open spec fn mailed_response(sent: bool) -> ResponseView {
    if sent {
        ApiResponse::Success.response()
    } else {
        ApiResponse::InternalServerError.response()
    }
}

/// Pre-registration, first step: an email that the store in memory knows
/// is a conflict; any other is looked up in the remote store.
pub fn pre_register(auth_data: &PreRegisterData, user_manager: &UserManager) -> (step: Step)
    ensures
        step@ == (if user_manager@.users.contains_key(auth_data.email@) {
            StepView::Respond(ApiResponse::Conflict.response())
        } else {
            StepView::GetUser { email: auth_data.email@ }
        }),
{
    if user_manager.user_exists(auth_data.email.as_str()) {
        Step::Respond(ApiResponse::Conflict.to_response())
    } else {
        Step::GetUser { email: auth_data.email.clone() }
    }
}

/// Pre-registration, after the lookup: a user that the remote store holds
/// is a conflict.  Otherwise the registration is filed as pending and the
/// activation link is mailed.
pub fn pre_register_fetched(
    auth_data: &PreRegisterData,
    app_config: &AppConfig,
    user_manager: &mut UserManager,
    fetched: Result<User, StoreError>,
) -> (step: Step)
    ensures
        fetched is Ok ==> step@ == StepView::Respond(ApiResponse::Conflict.response()) && final(user_manager)@ == old(user_manager)@,
        fetched is Err ==> (step@ matches StepView::SendEmail(mail) && (exists|token: Seq<char>|
            #![trigger activation_mail(app_config.url@, auth_data.email@, token)]
            filed_registration(
                old(user_manager)@,
                final(user_manager)@,
                auth_data.email@,
                auth_data.password@,
                auth_data.newsletter,
                token,
            ) && mail == activation_mail(app_config.url@, auth_data.email@, token))),
{
    if fetched.is_ok() {
        return Step::Respond(ApiResponse::Conflict.to_response());
    }
    let token = user_manager.pre_register(
        auth_data.email.clone(),
        auth_data.password.clone(),
        auth_data.newsletter,
    );
    let body = join4(
        "Click this link to activate your account: ",
        app_config.url.as_str(),
        "/auth?activate=",
        token.as_str(),
    );
    let mail = Email {
        to: auth_data.email.clone(),
        subject: String::from_str("Activate Account"),
        body,
    };
    assert(mail@ == activation_mail(app_config.url@, auth_data.email@, token@));
    Step::SendEmail(mail)
}

/// Pre-registration, after the mail.  A mail that could not be sent
/// leaves the pending registration in place.
pub fn pre_register_mailed(sent: bool) -> (response: Response)
    ensures
        response@ == mailed_response(sent),
{
    if sent {
        ApiResponse::Success.to_response()
    } else {
        ApiResponse::InternalServerError.to_response()
    }
}

/// Activation, first step: the pending registration becomes a user in
/// memory and is handed to the remote store; an unknown token is not
/// found.
pub fn register(auth_data: &RegisterData, user_manager: &mut UserManager) -> (step: Step)
    ensures
        final(user_manager)@ == old(user_manager)@.register(auth_data.uuid@),
        step@ == (match old(user_manager)@.pending(auth_data.uuid@) {
            Some(user) => StepView::PutUser { user },
            None => StepView::Respond(ApiResponse::NotFound.response()),
        }),
{
    match user_manager.register(auth_data.uuid.clone()) {
        Ok(user) => Step::PutUser { user },
        Err(_) => Step::Respond(ApiResponse::NotFound.to_response()),
    }
}

/// Activation, after the remote store: where the store did not take the
/// user, the user is taken out of memory again.
pub fn register_stored(
    email: &str,
    user_manager: &mut UserManager,
    stored: Result<User, StoreError>,
) -> (response: Response)
    ensures
        stored is Ok ==> response@ == ApiResponse::Success.response() && final(user_manager)@
            == old(user_manager)@,
        stored is Err ==> response@ == ApiResponse::InternalServerError.response() && final(user_manager)@ == old(user_manager)@.remove_user(email@),
{
    match stored {
        Ok(_) => ApiResponse::Success.to_response(),
        Err(_) => {
            user_manager.remove_user(email);
            ApiResponse::InternalServerError.to_response()
        },
    }
}

/// The reply to a login attempt.
fn login_response(attempt: Result<String, &'static str>) -> (response: Response)
    ensures
        match attempt {
            Ok(token) => response@ == (ResponseView {
                status: 200,
                body: BodyView::JsonString(token@),
            }),
            Err(_) => response@ == ApiResponse::Unauthorized.response(),
        },
{
    match attempt {
        Ok(token) => Response { status: 200, body: Body::JsonString(token) },
        Err(_) => ApiResponse::Unauthorized.to_response(),
    }
}

/// Login, first step: a user that is in memory is logged in at once; any
/// other is looked up in the remote store.
pub fn login(auth_data: &LoginData, user_manager: &mut UserManager) -> (step: Step)
    ensures
        match old(user_manager)@.users.contains_key(auth_data.email@) {
            true => (step@ matches StepView::Respond(response) && login_attempt(
                old(user_manager)@,
                auth_data.password@,
                old(user_manager)@.users[auth_data.email@],
                final(user_manager)@,
                response,
            )),
            false => step@ == (StepView::GetUser { email: auth_data.email@ }) && final(user_manager)@ == old(user_manager)@,
        },
{
    let cached = match user_manager.get_user(auth_data.email.as_str()) {
        Some(user) => Some(user.clone()),
        None => None,
    };
    match cached {
        Some(user) => {
            let attempt = user_manager.login(auth_data.password.clone(), user);
            Step::Respond(login_response(attempt))
        },
        None => Step::GetUser { email: auth_data.email.clone() },
    }
}

/// Login, after the lookup: a user that the remote store could not hand
/// out is an internal error.  Otherwise the user is put in memory and
/// logged in.
pub fn login_fetched(
    auth_data: &LoginData,
    user_manager: &mut UserManager,
    fetched: Result<User, StoreError>,
) -> (response: Response)
    ensures
        match fetched {
            Ok(user) => login_attempt(
                old(user_manager)@.insert_user(user@),
                auth_data.password@,
                user@,
                final(user_manager)@,
                response@,
            ),
            Err(_) => response@ == ApiResponse::InternalServerError.response() && final(user_manager)@ == old(user_manager)@,
        },
{
    match fetched {
        Ok(user) => {
            user_manager.insert_user(user.clone());
            let attempt = user_manager.login(auth_data.password.clone(), user);
            login_response(attempt)
        },
        Err(_) => ApiResponse::InternalServerError.to_response(),
    }
}

/// Logout: where the guard let the request through, the session is
/// removed.
pub fn logout(session: &Result<String, ApiResponse>, user_manager: &mut UserManager) -> (response:
    Response)
    ensures
        match session_view(*session) {
            Ok(token) => response@ == ApiResponse::Success.response() && final(user_manager)@
                == old(user_manager)@.logout(token),
            Err(e) => response@ == e.response() && final(user_manager)@ == old(user_manager)@,
        },
{
    match session {
        Ok(token) => {
            user_manager.logout(token.clone());
            ApiResponse::Success.to_response()
        },
        Err(e) => e.to_response(),
    }
}

/// Files a reset code for `email` and makes the mail that carries it.
fn mail_reset_code(email: &String, app_config: &AppConfig, user_manager: &mut UserManager) -> (step:
    Step)
    ensures
        reset_code_mailed(
            old(user_manager)@,
            final(user_manager)@,
            app_config.url@,
            email@,
            step@,
        ),
{
    let code = user_manager.insert_reset_email_code(email.clone());
    let body = join4(
        "Klicken Sie diesen Link um Ihr Password zurückzusetzen: ",
        app_config.url.as_str(),
        "/auth?code=",
        code.as_str(),
    );
    let mail = Email {
        to: email.clone(),
        subject: String::from_str("Password Zurücksetzung"),
        body,
    };
    assert(mail@ == reset_mail(app_config.url@, email@, code@));
    assert(final(user_manager)@ == old(user_manager)@.insert_code(code@, email@));
    Step::SendEmail(mail)
}

/// Request for a reset code, first step: for a user that is in memory the
/// code is filed and mailed at once; any other is looked up in the remote
/// store.
pub fn send_reset_email(
    data: &PreResetData,
    app_config: &AppConfig,
    user_manager: &mut UserManager,
) -> (step: Step)
    ensures
        match old(user_manager)@.users.contains_key(data.email@) {
            true => reset_code_mailed(
                old(user_manager)@,
                final(user_manager)@,
                app_config.url@,
                data.email@,
                step@,
            ),
            false => step@ == (StepView::GetUser { email: data.email@ }) && final(user_manager)@
                == old(user_manager)@,
        },
{
    if user_manager.user_exists(data.email.as_str()) {
        mail_reset_code(&data.email, app_config, user_manager)
    } else {
        Step::GetUser { email: data.email.clone() }
    }
}

/// Request for a reset code, after the lookup: a user that the remote
/// store does not hand out is not found; for any other the code is filed
/// and mailed.
pub fn send_reset_email_fetched(
    data: &PreResetData,
    app_config: &AppConfig,
    user_manager: &mut UserManager,
    fetched: Result<User, StoreError>,
) -> (step: Step)
    ensures
        match fetched {
            Ok(_) => reset_code_mailed(
                old(user_manager)@,
                final(user_manager)@,
                app_config.url@,
                data.email@,
                step@,
            ),
            Err(_) => step@ == StepView::Respond(ApiResponse::NotFound.response()) && final(user_manager)@ == old(user_manager)@,
        },
{
    match fetched {
        Ok(_) => mail_reset_code(&data.email, app_config, user_manager),
        Err(_) => Step::Respond(ApiResponse::NotFound.to_response()),
    }
}

/// Request for a reset code, after the mail.
pub fn send_reset_email_mailed(sent: bool) -> (response: Response)
    ensures
        response@ == mailed_response(sent),
{
    if sent {
        ApiResponse::Success.to_response()
    } else {
        ApiResponse::InternalServerError.to_response()
    }
}

/// Password reset, first step: a code that is not on file is not found;
/// for any other the user behind it is fetched from the remote store.
pub fn reset_password(data: &ResetData, user_manager: &UserManager) -> (step: Step)
    ensures
        step@ == (match user_manager@.email_for_code(data.uuid@) {
            Some(email) => StepView::GetUser { email },
            None => StepView::Respond(ApiResponse::NotFound.response()),
        }),
{
    match user_manager.get_email_from_code(data.uuid.as_str()) {
        Some(email) => Step::GetUser { email },
        None => Step::Respond(ApiResponse::NotFound.to_response()),
    }
}

/// Password reset, after the fetch: where the code is on file and the
/// remote store handed the user out, a replacement user with a new salt
/// and the hash of the new password is put in memory and handed to the
/// remote store; it keeps the newsletter flag that the store showed.  In
/// every other case the reply is "not found" and nothing changes.
pub fn reset_password_fetched(
    data: &ResetData,
    user_manager: &mut UserManager,
    fetched: Result<User, StoreError>,
) -> (step: Step)
    ensures
        match (old(user_manager)@.email_for_code(data.uuid@), fetched) {
            (Some(email), Ok(current)) => (step@ matches StepView::PutUser { user }
                && is_uuid_text(user.salt) && user == fresh_user(
                email,
                current@.newsletter,
                password_hash(data.password@, user.salt),
                user.salt,
            ) && final(user_manager)@ == old(user_manager)@.insert_user(user)),
            _ => step@ == StepView::Respond(ApiResponse::NotFound.response()) && final(user_manager)@ == old(user_manager)@,
        },
{
    let email = match user_manager.get_email_from_code(data.uuid.as_str()) {
        Some(email) => email,
        None => {
            return Step::Respond(ApiResponse::NotFound.to_response());
        },
    };
    match fetched {
        Ok(current) => {
            let user = user_manager.change_password(
                email.as_str(),
                data.password.as_str(),
                current.newsletter,
            );
            Step::PutUser { user }
        },
        Err(_) => Step::Respond(ApiResponse::NotFound.to_response()),
    }
}

/// Password reset, after the remote store: where the store took the
/// user, the reset code is used up; where it did not, the user is taken
/// out of memory again.
pub fn reset_password_stored(
    data: &ResetData,
    email: &str,
    user_manager: &mut UserManager,
    stored: Result<User, StoreError>,
) -> (response: Response)
    ensures
        stored is Ok ==> response@ == ApiResponse::Success.response() && final(user_manager)@
            == old(user_manager)@.remove_code(data.uuid@),
        stored is Err ==> response@ == ApiResponse::InternalServerError.response() && final(user_manager)@ == old(user_manager)@.remove_user(email@),
{
    match stored {
        Ok(_) => {
            user_manager.remove_reset_email_code(data.uuid.as_str());
            ApiResponse::Success.to_response()
        },
        Err(_) => {
            user_manager.remove_user(email);
            ApiResponse::InternalServerError.to_response()
        },
    }
}

/// Reading a document, first step.
pub fn get_document(session: &Result<String, ApiResponse>, id: &str) -> (step: Step)
    ensures
        step@ == (match session_view(*session) {
            Ok(_) => StepView::GetDocumentData { id: id@ },
            Err(e) => StepView::Respond(e.response()),
        }),
{
    match session {
        Ok(_) => Step::GetDocumentData { id: id.to_owned() },
        Err(e) => Step::Respond(e.to_response()),
    }
}

/// Reading a document, after the fetch: the payload, or "not found"
/// whatever went wrong.
pub fn get_document_fetched(fetched: Result<Value, StoreError>) -> (response: Response)
    ensures
        response@ == (match fetched {
            Ok(data) => ResponseView { status: 200, body: BodyView::JsonValue(data) },
            Err(_) => ApiResponse::NotFound.response(),
        }),
{
    match fetched {
        Ok(data) => Response { status: 200, body: Body::JsonValue(data) },
        Err(_) => ApiResponse::NotFound.to_response(),
    }
}

/// Reading the configuration document, after the fetch.  No session is
/// asked for.
pub fn get_config(fetched: Result<Value, StoreError>) -> (response: Response)
    ensures
        response@ == (match fetched {
            Ok(data) => ResponseView { status: 200, body: BodyView::JsonValue(data) },
            Err(_) => ApiResponse::NotFound.response(),
        }),
{
    get_document_fetched(fetched)
}

/// Writing a document, first step.
pub fn put_document(session: &Result<String, ApiResponse>, id: &str, data: Value) -> (step: Step)
    ensures
        step@ == (match session_view(*session) {
            Ok(_) => StepView::PutDocument { id: id@, data },
            Err(e) => StepView::Respond(e.response()),
        }),
{
    match session {
        Ok(_) => Step::PutDocument { id: id.to_owned(), data },
        Err(e) => Step::Respond(e.to_response()),
    }
}

/// Writing a document, after the upsert: the payload of the document
/// that the store now holds, or an internal error.
pub fn put_document_stored(stored: Result<Document, StoreError>) -> (response: Response)
    ensures
        response@ == (match stored {
            Ok(document) => ResponseView { status: 200, body: BodyView::JsonValue(document@.data) },
            Err(_) => ApiResponse::InternalServerError.response(),
        }),
{
    match stored {
        Ok(document) => Response { status: 200, body: Body::JsonValue(document.data) },
        Err(_) => ApiResponse::InternalServerError.to_response(),
    }
}

/// What guarded operations on the user `id` begin with: the fetch of that
/// user.
pub open spec fn fetch_user_step(session: Result<Seq<char>, ApiResponse>, id: Seq<char>) -> StepView {
    match session {
        Ok(_) => StepView::GetUser { email: id },
        Err(e) => StepView::Respond(e.response()),
    }
}

/// Reading the document ids of the user `id`, first step.
pub fn get_uuids(session: &Result<String, ApiResponse>, id: &str) -> (step: Step)
    ensures
        step@ == fetch_user_step(session_view(*session), id@),
{
    match session {
        Ok(_) => Step::GetUser { email: id.to_owned() },
        Err(e) => Step::Respond(e.to_response()),
    }
}

/// Reading document ids, after the fetch.
pub fn get_uuids_fetched(fetched: Result<User, StoreError>) -> (response: Response)
    ensures
        response@ == (match fetched {
            Ok(user) => ResponseView { status: 200, body: BodyView::JsonStrings(user@.uuids) },
            Err(_) => ApiResponse::NotFound.response(),
        }),
{
    match fetched {
        Ok(user) => Response { status: 200, body: Body::JsonStrings(user.uuids) },
        Err(_) => ApiResponse::NotFound.to_response(),
    }
}

/// The reply after the document ids of a user were written.
pub open spec fn uuids_stored_response(stored_ok: bool) -> ResponseView {
    if stored_ok {
        ResponseView { status: 200, body: BodyView::JsonString("UUIDs updated successfully"@) }
    } else {
        ApiResponse::InternalServerError.response()
    }
}

/// Adding a document id to the user `id`, first step.
pub fn post_uuid(session: &Result<String, ApiResponse>, id: &str) -> (step: Step)
    ensures
        step@ == fetch_user_step(session_view(*session), id@),
{
    match session {
        Ok(_) => Step::GetUser { email: id.to_owned() },
        Err(e) => Step::Respond(e.to_response()),
    }
}

/// Adding a document id, after the fetch: the id goes to the end of the
/// user's list, and the user is handed to the remote store.
pub fn post_uuid_fetched(data: &AddUuid, fetched: Result<User, StoreError>) -> (step: Step)
    ensures
        step@ == (match fetched {
            Ok(user) => StepView::PutUser {
                user: UserView { uuids: user@.uuids.push(data.uuid@), ..user@ },
            },
            Err(_) => StepView::Respond(ApiResponse::NotFound.response()),
        }),
{
    match fetched {
        Ok(user) => {
            let mut user = user;
            let ghost before = user@;
            user.uuids.push(data.uuid.clone());
            assert(user@.uuids =~= before.uuids.push(data.uuid@));
            Step::PutUser { user }
        },
        Err(_) => Step::Respond(ApiResponse::NotFound.to_response()),
    }
}

/// Adding a document id, after the upsert.
pub fn post_uuid_stored(stored: Result<User, StoreError>) -> (response: Response)
    ensures
        response@ == uuids_stored_response(stored is Ok),
{
    match stored {
        Ok(_) => Response {
            status: 200,
            body: Body::JsonString(String::from_str("UUIDs updated successfully")),
        },
        Err(_) => ApiResponse::InternalServerError.to_response(),
    }
}

/// `list` without every occurrence of `item`.
pub fn remove_all(list: &Vec<String>, item: &str) -> (rest: Vec<String>)
    ensures
        rest.deep_view() == without(list.deep_view(), item@),
{
    let wanted = item.to_owned();
    let mut rest: Vec<String> = Vec::new();
    let mut i: usize = 0;
    assert(list.deep_view().take(0) =~= Seq::<Seq<char>>::empty());
    assert(rest.deep_view() =~= Seq::<Seq<char>>::empty());
    while i < list.len()
        invariant
            i <= list@.len(),
            wanted@ == item@,
            rest.deep_view() == without(list.deep_view().take(i as int), item@),
        decreases list@.len() - i,
    {
        let ghost seen = list.deep_view().take(i as int);
        let ghost next = list.deep_view().take(i as int + 1);
        let ghost kept = rest.deep_view();
        assert(next.drop_last() =~= seen);
        assert(next.last() == list@[i as int]@);
        if !(list[i] == wanted) {
            rest.push(list[i].clone());
            assert(rest.deep_view() =~= kept.push(list@[i as int]@));
        }
        i += 1;
    }
    assert(list.deep_view().take(i as int) =~= list.deep_view());
    rest
}

/// Removing a document id from the user `id`, first step.
pub fn delete_uuid(session: &Result<String, ApiResponse>, id: &str) -> (step: Step)
    ensures
        step@ == fetch_user_step(session_view(*session), id@),
{
    match session {
        Ok(_) => Step::GetUser { email: id.to_owned() },
        Err(e) => Step::Respond(e.to_response()),
    }
}

/// Removing a document id, after the fetch: every occurrence of the id
/// leaves the user's list, and the user is handed to the remote store.
pub fn delete_uuid_fetched(id: &str, uuid: &str, fetched: Result<User, StoreError>) -> (step: Step)
    ensures
        step@ == (match fetched {
            Ok(user) => StepView::PutUser {
                user: UserView { uuids: without(user@.uuids, uuid@), ..user@ },
            },
            Err(_) => StepView::Respond(
                ResponseView {
                    status: 404,
                    body: BodyView::Text("User with email "@ + id@ + " not found"@),
                },
            ),
        }),
{
    match fetched {
        Ok(user) => {
            let uuids = remove_all(&user.uuids, uuid);
            Step::PutUser {
                user: User {
                    email: user.email,
                    newsletter: user.newsletter,
                    hashed: user.hashed,
                    salt: user.salt,
                    uuids,
                },
            }
        },
        Err(_) => Step::Respond(
            Response { status: 404, body: Body::Text(join3("User with email ", id, " not found")) },
        ),
    }
}

/// Removing a document id, after the upsert.
pub fn delete_uuid_stored(stored: Result<User, StoreError>) -> (response: Response)
    ensures
        response@ == uuids_stored_response(stored is Ok),
{
    post_uuid_stored(stored)
}

/// Deleting the user `email`, first step: the remote store goes first.
pub fn delete_user(session: &Result<String, ApiResponse>, email: &str) -> (step: Step)
    ensures
        step@ == (match session_view(*session) {
            Ok(_) => StepView::DeleteUser { email: email@ },
            Err(e) => StepView::Respond(e.response()),
        }),
{
    match session {
        Ok(_) => Step::DeleteUser { email: email.to_owned() },
        Err(e) => Step::Respond(e.to_response()),
    }
}

/// Deleting a user, after the remote store: where the store deleted the
/// record, the caller's session, every session of the deleted user and
/// the user itself leave the memory; where it did not, nothing changes.
pub fn delete_user_done(
    token: &str,
    email: &str,
    user_manager: &mut UserManager,
    deleted: Result<bool, StoreError>,
) -> (response: Response)
    ensures
        deleted is Ok ==> response@ == (ResponseView {
            status: 200,
            body: BodyView::Text("User deleted successfully"@),
        }) && final(user_manager)@ == old(user_manager)@.delete_account(token@, email@),
        deleted is Err ==> response@ == ApiResponse::InternalServerError.response() && final(user_manager)@ == old(user_manager)@,
{
    match deleted {
        Ok(_) => {
            user_manager.logout(token.to_owned());
            user_manager.logout_user(email);
            user_manager.delete_user(email);
            Response { status: 200, body: Body::Text(String::from_str("User deleted successfully")) }
        },
        Err(_) => ApiResponse::InternalServerError.to_response(),
    }
}

/// Reading the caller's latest document id, first step: the caller is
/// the user behind the session.
pub fn get_last_uuid(session: &Result<String, ApiResponse>, user_manager: &UserManager) -> (step:
    Step)
    ensures
        step@ == (match session_view(*session) {
            Ok(token) => match user_manager@.email_for_token(token) {
                Some(email) => StepView::GetUser { email },
                None => StepView::Respond(ApiResponse::NotFound.response()),
            },
            Err(e) => StepView::Respond(e.response()),
        }),
{
    match session {
        Ok(token) => match user_manager.get_email_from_token(token.as_str()) {
            Some(email) => Step::GetUser { email },
            None => Step::Respond(ApiResponse::NotFound.to_response()),
        },
        Err(e) => Step::Respond(e.to_response()),
    }
}

/// Reading the latest document id, after the fetch: the last id of the
/// user's list; a user without ids, like a user that could not be
/// fetched, is "not found".
pub fn get_last_uuid_fetched(fetched: Result<User, StoreError>) -> (response: Response)
    ensures
        response@ == (match fetched {
            Ok(user) => if user@.uuids.len() > 0 {
                ResponseView { status: 200, body: BodyView::Text(user@.uuids.last()) }
            } else {
                ApiResponse::NotFound.response()
            },
            Err(_) => ApiResponse::NotFound.response(),
        }),
{
    match fetched {
        Ok(user) => {
            let mut uuids = user.uuids;
            let ghost before = uuids.deep_view();
            match uuids.pop() {
                Some(last) => {
                    assert(last@ == before.last());
                    Response { status: 200, body: Body::Text(last) }
                },
                None => ApiResponse::NotFound.to_response(),
            }
        },
        Err(_) => ApiResponse::NotFound.to_response(),
    }
}

} // verus!
