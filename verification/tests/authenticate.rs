use auth0_client::authorization::Authenticatable;
use auth0_client::client::{AccessTokenResponse, TokenType};
use auth0_client::error::{Error, TransportFailure};
use auth0_client::transport::HttpReply;
use auth0_client::Auth0Client;

fn new_client() -> Auth0Client {
    Auth0Client::new(
        "client_id",
        "client_secret",
        "http://127.0.0.1:1234",
        "https://audience.com",
    )
}

fn replied(status: u16, body: &str) -> HttpReply {
    HttpReply::Response { status, body: body.as_bytes().to_vec() }
}

fn auth_reply() -> HttpReply {
    replied(200, r#"{"access_token":"access_token","token_type":"Bearer"}"#)
}

#[test]
fn save_the_access_token_to_the_client() {
    let mut client = new_client();

    client.authenticate(&auth_reply()).unwrap();
    assert_eq!(client.bearer(), Some("access_token".to_owned()));
}

#[test]
fn return_none_when_not_authenticated() {
    let client = new_client();

    assert_eq!(client.access_token(), None);
}

#[test]
fn return_access_token_when_authenticated() {
    let mut client = new_client();

    client.authenticate(&auth_reply()).unwrap();
    assert_eq!(client.access_token(), Some("access_token".to_owned()));
}

#[test]
fn returns_exactly_the_issued_token() {
    let mut client = new_client();
    let reply = replied(200, r#"{"access_token": "T", "token_type": "Bearer"}"#);

    assert_eq!(client.authenticate(&reply), Ok(()));
    assert_eq!(client.access_token(), Some("T".to_owned()));
}

#[test]
fn members_besides_the_two_are_ignored() {
    let mut client = new_client();
    let reply = replied(
        201,
        r#"{"scope":"read","expires_in":86400,"token_type":"Bearer","access_token":"abc.def"}"#,
    );

    assert_eq!(client.authenticate(&reply), Ok(()));
    assert_eq!(client.access_token(), Some("abc.def".to_owned()));
}

#[test]
fn unreachable_endpoint_is_a_transport_error_and_stores_nothing() {
    let mut client = new_client();

    assert_eq!(
        client.authenticate(&HttpReply::Unreachable),
        Err(Error::Transport(TransportFailure::Unreachable))
    );
    assert_eq!(client.access_token(), None);
}

#[test]
fn failure_status_is_a_transport_error_whatever_the_body() {
    let mut client = new_client();
    let reply = replied(401, r#"{"access_token":"T","token_type":"Bearer"}"#);

    assert_eq!(
        client.authenticate(&reply),
        Err(Error::Transport(TransportFailure::Status(401)))
    );
    assert_eq!(client.access_token(), None);
}

#[test]
fn body_that_is_not_json_is_a_malformed_response() {
    let mut client = new_client();

    assert_eq!(
        client.authenticate(&replied(200, "<html>busy</html>")),
        Err(Error::MalformedResponse)
    );
    assert_eq!(client.access_token(), None);
}

#[test]
fn response_without_access_token_is_malformed() {
    let mut client = new_client();

    assert_eq!(
        client.authenticate(&replied(200, r#"{"token_type":"Bearer"}"#)),
        Err(Error::MalformedResponse)
    );
    assert_eq!(
        client.authenticate(&replied(200, r#"{"access_token":17,"token_type":"Bearer"}"#)),
        Err(Error::MalformedResponse)
    );
    assert_eq!(client.access_token(), None);
}

#[test]
fn response_without_a_known_token_type_is_malformed() {
    let mut client = new_client();

    assert_eq!(
        client.authenticate(&replied(200, r#"{"access_token":"T"}"#)),
        Err(Error::MalformedResponse)
    );
    assert_eq!(
        client.authenticate(&replied(200, r#"{"access_token":"T","token_type":"mac"}"#)),
        Err(Error::MalformedResponse)
    );
    assert_eq!(
        client.authenticate(&replied(200, r#"{"access_token":"T","token_type":"bearer"}"#)),
        Err(Error::MalformedResponse)
    );
    assert_eq!(client.access_token(), None);
}

#[test]
fn a_later_success_replaces_the_token() {
    let mut client = new_client();

    client
        .authenticate(&replied(200, r#"{"access_token":"first","token_type":"Bearer"}"#))
        .unwrap();
    client
        .authenticate(&replied(200, r#"{"access_token":"second","token_type":"Bearer"}"#))
        .unwrap();
    assert_eq!(client.access_token(), Some("second".to_owned()));
}

#[test]
fn a_failure_keeps_the_token_held_before() {
    let mut client = new_client();

    client.authenticate(&auth_reply()).unwrap();
    assert_eq!(
        client.authenticate(&HttpReply::Unreachable),
        Err(Error::Transport(TransportFailure::Unreachable))
    );
    assert_eq!(
        client.authenticate(&replied(503, "")),
        Err(Error::Transport(TransportFailure::Status(503)))
    );
    assert_eq!(client.authenticate(&replied(200, "{}")), Err(Error::MalformedResponse));
    assert_eq!(client.access_token(), Some("access_token".to_owned()));
}

#[test]
fn token_request_carries_the_credentials() {
    let client = Auth0Client::new("id", "secret", "https://tenant.example.com/", "https://api");
    let request = client.token_request();

    assert_eq!(request.url, "https://tenant.example.com/oauth/token");
    assert_eq!(request.grant_type, "client_credentials");
    assert_eq!(request.client_id, "id");
    assert_eq!(request.client_secret, "secret");
    assert_eq!(request.audience, "https://api");
}

#[test]
fn accept_stores_a_response_and_refuses_none() {
    let mut client = new_client();
    assert_eq!(client.accept(None), Err(Error::MalformedResponse));
    assert_eq!(client.bearer(), None);

    let issued = AccessTokenResponse { access_token: "tok".to_owned(), token_type: TokenType::Bearer };
    assert_eq!(client.accept(Some(issued)), Ok(()));
    assert_eq!(client.bearer(), Some("tok".to_owned()));
}

#[test]
fn token_type_is_read_exactly() {
    assert_eq!(TokenType::parse("Bearer"), Some(TokenType::Bearer));
    assert_eq!(TokenType::parse("bearer"), None);
    assert_eq!(TokenType::parse("Bearer "), None);
    assert_eq!(TokenType::parse(""), None);
}

#[test]
fn a_body_that_is_no_object_is_a_malformed_response() {
    let mut client = new_client();

    for body in [r#"["T","Bearer"]"#, r#""T""#, "null", "17"] {
        assert_eq!(client.authenticate(&replied(200, body)), Err(Error::MalformedResponse));
    }
    assert_eq!(client.access_token(), None);
}

#[test]
fn the_request_goes_to_the_domains_own_token_endpoint() {
    let request = Auth0Client::new("c", "s", "http://h", "a").token_request();

    assert_eq!(request.url, "http://h/oauth/token");
    assert_eq!(new_client().token_request().url, "http://127.0.0.1:1234/oauth/token");
}
