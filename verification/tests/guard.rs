use identity_core::auth::{User, UserManager, SESSION_LIFETIME_NANOS};
use identity_core::hasher::hash_password;
use identity_core::utils::{
    extract_session_token, verfiy_session_token, verfiy_session_token_at, ApiResponse, Body, Response,
};

fn account() -> User {
    User {
        email: "a@x.com".to_string(),
        newsletter: false,
        hashed: hash_password("pw1", "s1"),
        salt: "s1".to_string(),
        uuids: Vec::new(),
    }
}

fn plain(status: u16, text: &str) -> Response {
    Response { status, body: Body::Text(text.to_string()) }
}

#[test]
fn token_follows_the_bearer_prefix() {
    assert_eq!(extract_session_token(Some("Bearer abc")), Some("abc".to_string()));
    assert_eq!(extract_session_token(Some("Bearer ")), Some(String::new()));
    assert_eq!(extract_session_token(Some("Bearer  two spaces")), Some(" two spaces".to_string()));
    assert_eq!(extract_session_token(Some("Bearer Bearer x")), Some("Bearer x".to_string()));
    assert_eq!(extract_session_token(Some("Bearer tökén")), Some("tökén".to_string()));
}

#[test]
fn missing_or_malformed_header_carries_no_token() {
    assert_eq!(extract_session_token(None), None);
    assert_eq!(extract_session_token(Some("")), None);
    assert_eq!(extract_session_token(Some("Bearer")), None);
    assert_eq!(extract_session_token(Some("bearer abc")), None);
    assert_eq!(extract_session_token(Some("Basic abc")), None);
    assert_eq!(extract_session_token(Some(" Bearer abc")), None);
    assert_eq!(extract_session_token(Some("Bearerabc")), None);
    assert_eq!(extract_session_token(Some("ééééééé abc")), None);
}

#[test]
fn classes_map_to_four_statuses() {
    assert_eq!(ApiResponse::Success.to_response(), plain(200, "Ok"));
    assert_eq!(ApiResponse::NotFound.to_response(), plain(404, "Not found"));
    assert_eq!(ApiResponse::Conflict.to_response(), plain(404, "Conflict"));
    assert_eq!(ApiResponse::Unauthorized.to_response(), plain(401, "Unauthorized"));
    assert_eq!(ApiResponse::InternalServerError.to_response(), plain(500, "Internal Server Error"));
}

#[test]
fn guard_hands_back_the_token_of_a_valid_session() {
    let mut manager = UserManager::new();
    let session = manager.login("pw1".to_string(), account()).unwrap();
    let header = format!("Bearer {}", session);
    assert_eq!(verfiy_session_token(Some(&header), &manager), Ok(session));
}

#[test]
fn guard_refuses_without_telling_why() {
    let mut manager = UserManager::new();
    let session = manager.login("pw1".to_string(), account()).unwrap();
    assert_eq!(verfiy_session_token(None, &manager), Err(ApiResponse::Unauthorized));
    assert_eq!(verfiy_session_token(Some(&session), &manager), Err(ApiResponse::Unauthorized));
    assert_eq!(verfiy_session_token(Some("Bearer unknown"), &manager), Err(ApiResponse::Unauthorized));
    let header = format!("Bearer {}", session);
    manager.logout(session);
    assert_eq!(verfiy_session_token(Some(&header), &manager), Err(ApiResponse::Unauthorized));
}

#[test]
fn guard_at_a_given_time() {
    let mut manager = UserManager::new();
    manager.login_with(hash_password("pw1", "s1"), account(), 100, "S".to_string()).unwrap();
    assert_eq!(verfiy_session_token_at(Some("Bearer S"), &manager, 100), Ok("S".to_string()));
    assert_eq!(
        verfiy_session_token_at(Some("Bearer S"), &manager, 100 + SESSION_LIFETIME_NANOS - 1),
        Ok("S".to_string())
    );
    assert_eq!(
        verfiy_session_token_at(Some("Bearer S"), &manager, 100 + SESSION_LIFETIME_NANOS),
        Err(ApiResponse::Unauthorized)
    );
    assert_eq!(verfiy_session_token_at(Some("Bearer T"), &manager, 100), Err(ApiResponse::Unauthorized));
    assert_eq!(verfiy_session_token_at(Some("S"), &manager, 100), Err(ApiResponse::Unauthorized));
    assert_eq!(verfiy_session_token_at(None, &manager, 100), Err(ApiResponse::Unauthorized));
}
