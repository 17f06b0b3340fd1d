//! The session guard and the replies that every operation answers with.

use crate::auth::UserManager;
use crate::clock::is_reading;
use serde_json::Value;
use vstd::prelude::*;
use vstd::string::*;

verus! {

/// What an answer carries.
#[derive(Debug, PartialEq)]
pub enum Body {
    /// Plain text.
    Text(String),
    /// A JSON string.
    JsonString(String),
    /// A JSON array of strings.
    JsonStrings(Vec<String>),
    /// A JSON value.
    JsonValue(Value),
}

/// The content of a `Body`.
pub enum BodyView {
    Text(Seq<char>),
    JsonString(Seq<char>),
    JsonStrings(Seq<Seq<char>>),
    JsonValue(Value),
}

impl View for Body {
    type V = BodyView;

    open spec fn view(&self) -> BodyView {
        match *self {
            Body::Text(text) => BodyView::Text(text@),
            Body::JsonString(text) => BodyView::JsonString(text@),
            Body::JsonStrings(list) => BodyView::JsonStrings(list.deep_view()),
            Body::JsonValue(value) => BodyView::JsonValue(value),
        }
    }
}

/// An answer to a request: a status code and a body.
#[derive(Debug, PartialEq)]
pub struct Response {
    pub status: u16,
    pub body: Body,
}

/// The content of a `Response`.
pub struct ResponseView {
    pub status: u16,
    pub body: BodyView,
}

impl View for Response {
    type V = ResponseView;

    open spec fn view(&self) -> ResponseView {
        ResponseView { status: self.status, body: self.body@ }
    }
}

/// The outcome classes that every operation answers with.
#[derive(Clone, Copy, Debug, PartialEq, Eq, Structural)]
pub enum ApiResponse {
    Success,
    NotFound,
    Conflict,
    Unauthorized,
    InternalServerError,
}

impl ApiResponse {
    /// The answer that stands for the class.  A conflict is sent with the
    /// status of "not found", so four statuses are in use.
    pub open spec fn response(self) -> ResponseView {
        match self {
            ApiResponse::Success => ResponseView { status: 200, body: BodyView::Text("Ok"@) },
            ApiResponse::NotFound => ResponseView {
                status: 404,
                body: BodyView::Text("Not found"@),
            },
            ApiResponse::Conflict => ResponseView { status: 404, body: BodyView::Text("Conflict"@) },
            ApiResponse::Unauthorized => ResponseView {
                status: 401,
                body: BodyView::Text("Unauthorized"@),
            },
            ApiResponse::InternalServerError => ResponseView {
                status: 500,
                body: BodyView::Text("Internal Server Error"@),
            },
        }
    }

    /// The answer that stands for the class.
    pub fn to_response(self) -> (response: Response)
        ensures
            response@ == self.response(),
    {
        match self {
            ApiResponse::Success => Response { status: 200, body: Body::Text(String::from_str("Ok")) },
            ApiResponse::NotFound => Response {
                status: 404,
                body: Body::Text(String::from_str("Not found")),
            },
            ApiResponse::Conflict => Response {
                status: 404,
                body: Body::Text(String::from_str("Conflict")),
            },
            ApiResponse::Unauthorized => Response {
                status: 401,
                body: Body::Text(String::from_str("Unauthorized")),
            },
            ApiResponse::InternalServerError => Response {
                status: 500,
                body: Body::Text(String::from_str("Internal Server Error")),
            },
        }
    }
}

/// The token that an authorization header carries: what follows the seven
/// characters `Bearer ` at its start.  A missing header, or one that does
/// not start so, carries none.
pub open spec fn bearer_token(header: Option<Seq<char>>) -> Option<Seq<char>> {
    match header {
        Some(text) => if text.len() >= 7 && text.subrange(0, 7) == "Bearer "@ {
            Some(text.subrange(7, text.len() as int))
        } else {
            None
        },
        None => None,
    }
}

/// The characters of an optional piece of text.
pub open spec fn header_view(header: Option<&str>) -> Option<Seq<char>> {
    match header {
        Some(text) => Some(text@),
        None => None,
    }
}

/// The session token in the value of the authorization header.
pub fn extract_session_token(authorization: Option<&str>) -> (token: Option<String>)
    ensures
        match token {
            Some(t) => bearer_token(header_view(authorization)) == Some(t@),
            None => bearer_token(header_view(authorization)) is None,
        },
{
    match authorization {
        None => None,
        Some(text) => {
            let n = text.unicode_len();
            if n < 7 {
                return None;
            }
            let prefix = String::from_str(text.substring_char(0, 7));
            let wanted = String::from_str("Bearer ");
            if prefix == wanted {
                Some(String::from_str(text.substring_char(7, n)))
            } else {
                None
            }
        },
    }
}

/// The guard with the time given: the header must carry a token, and the
/// token must name a session that is valid at `now`.  The token is handed
/// back, not the email behind it.
pub fn verfiy_session_token_at(
    authorization: Option<&str>,
    user_manager: &UserManager,
    now: i128,
) -> (r: Result<String, ApiResponse>)
    ensures
        match r {
            Ok(token) => bearer_token(header_view(authorization)) == Some(token@)
                && user_manager@.session_valid(token@, now as int),
            Err(e) => e == ApiResponse::Unauthorized && (match bearer_token(
                header_view(authorization),
            ) {
                Some(token) => !user_manager@.session_valid(token, now as int),
                None => true,
            }),
        },
{
    match extract_session_token(authorization) {
        None => Err(ApiResponse::Unauthorized),
        Some(token) => {
            if !user_manager.session_token_valid_at(token.clone(), now) {
                return Err(ApiResponse::Unauthorized);
            }
            Ok(token)
        },
    }
}

/// The guard by the clock: a request is let through exactly when its
/// header carries a token and the token names a session that is valid at
/// the time that the clock shows.  It never lets a request through whose
/// header carries no token or whose token names no session or a revoked
/// one; every refusal is `Unauthorized`, whatever the reason.
pub fn verfiy_session_token(authorization: Option<&str>, user_manager: &UserManager) -> (r: Result<
    String,
    ApiResponse,
>)
    ensures
        match r {
            Ok(token) => bearer_token(header_view(authorization)) == Some(token@)
                && user_manager@.session_live(token@),
            Err(e) => e == ApiResponse::Unauthorized,
        },
        (exists|now: int|
            #![trigger is_reading(now)]
            is_reading(now) && (r is Ok <==> (bearer_token(header_view(authorization)) matches Some(
                t,
            ) && user_manager@.session_valid(t, now)))),
{
    match extract_session_token(authorization) {
        None => {
            assert(is_reading(0));
            Err(ApiResponse::Unauthorized)
        },
        Some(token) => {
            let valid = user_manager.session_token_valid(token.clone());
            proof {
                let shown = choose|now: int|
                    #![trigger user_manager@.session_valid(token@, now)]
                    is_reading(now) && valid == user_manager@.session_valid(token@, now);
                assert(is_reading(shown));
            }
            if !valid {
                return Err(ApiResponse::Unauthorized);
            }
            Ok(token)
        },
    }
}

} // verus!
