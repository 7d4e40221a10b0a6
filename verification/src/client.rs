//! The client: its credentials, fixed when it is made, and the access token
//! it holds once the provider has issued one.

use vstd::prelude::*;
use vstd::string::*;
use crate::claims::text_view;
use crate::endpoint::{token_url, token_url_of};
use crate::error::Error;
use crate::json::{parse_document, parsed_json, text_member, text_under, Json};

verus! {

/// The OAuth2 grant under which a token is asked for.
#[derive(Clone, Copy, Debug, PartialEq, Eq, Structural)]
pub enum GrantType {
    ClientCredentials,
}

impl GrantType {
    /// The grant's name on the wire.
    pub open spec fn spec_name(&self) -> Seq<char> {
        "client_credentials"@
    }

    /// The grant's name on the wire.
    pub fn name(&self) -> (name: String)
        ensures
            name@ == self.spec_name(),
    {
        match self {
            GrantType::ClientCredentials => String::from_str("client_credentials"),
        }
    }
}

/// The kind of an issued token.
#[derive(Clone, Copy, Debug, PartialEq, Eq, Structural)]
pub enum TokenType {
    Bearer,
}

/// The kind that the provider's `token_type` text names: `Bearer`, spelled
/// exactly so, and no other.
pub open spec fn token_type_named(text: Seq<char>) -> Option<TokenType> {
    if text == "Bearer"@ {
        Some(TokenType::Bearer)
    } else {
        None
    }
}

impl TokenType {
    /// Reads the provider's `token_type` text.
    pub fn parse(text: &str) -> (kind: Option<TokenType>)
        ensures
            kind == token_type_named(text@),
    {
        let given = String::from_str(text);
        let bearer = String::from_str("Bearer");
        if given == bearer {
            Some(TokenType::Bearer)
        } else {
            None
        }
    }
}

/// What the token endpoint answers to a successful request.
#[derive(Debug, PartialEq, Eq)]
pub struct AccessTokenResponse {
    pub access_token: String,
    pub token_type: TokenType,
}

impl AccessTokenResponse {
    /// The bearer string and its kind.
    pub open spec fn parts(self) -> (Seq<char>, TokenType) {
        (self.access_token@, self.token_type)
    }
}

/// The access-token response that a document holds: the text under
/// `access_token` with the kind named under `token_type`, where the document
/// is an object that holds both.
pub open spec fn token_response_in(document: Json) -> Option<(Seq<char>, TokenType)> {
    match (text_under(document, "access_token"@), text_under(document, "token_type"@)) {
        (Some(access_token), Some(kind)) => match token_type_named(kind) {
            Some(token_type) => Some((access_token, token_type)),
            None => None,
        },
        _ => None,
    }
}

/// The access-token response that a body spells, if it spells one.
pub open spec fn token_response_of(body: Seq<u8>) -> Option<(Seq<char>, TokenType)> {
    match parsed_json(body) {
        Some(document) => token_response_in(document),
        None => None,
    }
}

/// The client-credentials request: where it goes and the four fields of its
/// body.
#[derive(Debug, PartialEq, Eq)]
pub struct TokenRequest {
    pub url: String,
    pub grant_type: String,
    pub client_id: String,
    pub client_secret: String,
    pub audience: String,
}

/// A client of one provider.
pub struct Auth0Client {
    client_id: String,
    client_secret: String,
    domain: String,
    audience: String,
    grant_type: GrantType,
    access_token: Option<AccessTokenResponse>,
}

/// What a client was configured with.
pub ghost struct Credentials {
    pub client_id: Seq<char>,
    pub client_secret: Seq<char>,
    pub domain: Seq<char>,
    pub audience: Seq<char>,
    pub grant_type: GrantType,
}

impl Auth0Client {
    /// The configuration, which no operation changes.
    pub closed spec fn credentials(&self) -> Credentials {
        Credentials {
            client_id: self.client_id@,
            client_secret: self.client_secret@,
            domain: self.domain@,
            audience: self.audience@,
            grant_type: self.grant_type,
        }
    }

    /// The bearer string held, if the client holds a token.
    pub closed spec fn held(&self) -> Option<Seq<char>> {
        match self.access_token {
            Some(token) => Some(token.access_token@),
            None => None,
        }
    }

    /// A client for the provider at `domain`, which asks for tokens for
    /// `audience` under the client-credentials grant. It holds no token.
    pub fn new(client_id: &str, client_secret: &str, domain: &str, audience: &str) -> (client:
        Auth0Client)
        ensures
            client.held() is None,
            client.credentials() == (Credentials {
                client_id: client_id@,
                client_secret: client_secret@,
                domain: domain@,
                audience: audience@,
                grant_type: GrantType::ClientCredentials,
            }),
    {
        Auth0Client {
            client_id: String::from_str(client_id),
            client_secret: String::from_str(client_secret),
            domain: String::from_str(domain),
            audience: String::from_str(audience),
            grant_type: GrantType::ClientCredentials,
            access_token: None,
        }
    }

    /// The request that asks the provider for a token.
    pub fn token_request(&self) -> (request: TokenRequest)
        ensures
            request.url@ == token_url_of(self.credentials().domain),
            request.grant_type@ == self.credentials().grant_type.spec_name(),
            request.client_id@ == self.credentials().client_id,
            request.client_secret@ == self.credentials().client_secret,
            request.audience@ == self.credentials().audience,
    {
        TokenRequest {
            url: token_url(self.domain.as_str()),
            grant_type: self.grant_type.name(),
            client_id: self.client_id.clone(),
            client_secret: self.client_secret.clone(),
            audience: self.audience.clone(),
        }
    }

    /// Takes what was read from the token endpoint's body.
    ///
    /// A response replaces the token held, whole and at once. Without one
    /// the body was not an access-token response, and the client is left as
    /// it was.
    pub fn accept(&mut self, response: Option<AccessTokenResponse>) -> (r: Result<(), Error>)
        ensures
            final(self).credentials() == old(self).credentials(),
            match response {
                Some(issued) => r is Ok && final(self).held() == Some(issued.access_token@),
                None => r == Err::<(), Error>(Error::MalformedResponse) && *final(self) == *old(
                    self,
                ),
            },
    {
        match response {
            Some(issued) => {
                self.access_token = Some(issued);
                Ok(())
            },
            None => Err(Error::MalformedResponse),
        }
    }

    /// The bearer string held, if the client holds a token.
    pub fn bearer(&self) -> (token: Option<String>)
        ensures
            text_view(token) == self.held(),
    {
        match &self.access_token {
            Some(issued) => Some(issued.access_token.clone()),
            None => None,
        }
    }
}

/// Reads an access-token response out of the token endpoint's body: a JSON
/// object with a string under `access_token` and a token type under
/// `token_type`. Anything else is no response.
pub(crate) fn read_token_response(body: &Vec<u8>) -> (response: Option<AccessTokenResponse>)
    ensures
        match token_response_of(body@) {
            Some(parts) => response is Some && response->Some_0.parts() == parts,
            None => response is None,
        },
{
    match parse_document(body) {
        None => None,
        Some(document) => match text_member(&document, "access_token") {
            None => None,
            Some(access_token) => match text_member(&document, "token_type") {
                None => None,
                Some(kind) => match TokenType::parse(kind.as_str()) {
                    Some(token_type) => Some(AccessTokenResponse { access_token, token_type }),
                    None => None,
                },
            },
        },
    }
}

} // verus!
