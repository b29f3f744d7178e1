use reqwest::header::{HeaderMap, HeaderValue};
use reqwest::{Certificate, Client, ClientBuilder};
use vstd::prelude::*;
use vstd::string::*;

verus! {

#[verifier::external_type_specification]
#[verifier::external_body]
pub struct ExClient(reqwest::Client);

#[verifier::external_type_specification]
#[verifier::external_body]
pub struct ExClientBuilder(reqwest::ClientBuilder);

#[verifier::external_type_specification]
#[verifier::external_body]
pub struct ExCertificate(reqwest::Certificate);

#[verifier::external_type_specification]
#[verifier::external_body]
pub struct ExReqwestError(reqwest::Error);

#[verifier::external_type_specification]
#[verifier::external_body]
pub struct ExHeaderValue(reqwest::header::HeaderValue);

#[verifier::external_type_specification]
#[verifier::external_body]
#[verifier::reject_recursive_types(T)]
pub struct ExHeaderMap<T>(reqwest::header::HeaderMap<T>);

/// A character that may stand in an HTTP header value: visible ASCII,
/// space, tab, or anything beyond ASCII; no other control character.
pub open spec fn header_char_ok(c: char) -> bool {
    ((c as u32) >= 32 && (c as u32) != 127) || c == '\t'
}

pub open spec fn is_header_value(s: Seq<char>) -> bool {
    forall|i: int| 0 <= i < s.len() ==> #[trigger] header_char_ok(s[i])
}

/// The `Authorization` header value that carries a bearer token.
pub open spec fn bearer_value(token: Seq<char>) -> Seq<char> {
    "Bearer "@ + token
}

/// The credentials cannot make an authenticated client.
#[derive(Debug, Clone, Copy, PartialEq, Eq, Structural)]
pub enum CredentialError {
    InvalidToken,
    InvalidCertificate,
}

/// The headers that every call to the cluster API carries.
pub enum StandardHeader {
    Authorization,
    UserAgent,
}

/// Relies on reqwest::Certificate::from_pem, which takes the PEM text of a
/// certificate to trust.
#[verifier::external_body]
fn parse_certificate(pem: &str) -> Result<Certificate, reqwest::Error> {
    Certificate::from_pem(pem.as_bytes())
}

/// Relies on http's HeaderValue::from_str, which accepts a string exactly
/// when each of its bytes is a tab or lies in 32..=255 but is not 127.
#[verifier::external_body]
fn header_value(s: &str) -> (r: Option<HeaderValue>)
    ensures
        r is Some <==> is_header_value(s@),
{
    HeaderValue::from_str(s).ok()
}

/// Relies on http's HeaderMap::new, an empty map.
#[verifier::external_body]
fn empty_headers() -> HeaderMap<HeaderValue> {
    HeaderMap::new()
}

/// Relies on http's HeaderMap::insert, which sets a header.
#[verifier::external_body]
fn insert_header(map: &mut HeaderMap<HeaderValue>, name: StandardHeader, value: HeaderValue) {
    let key = match name {
        StandardHeader::Authorization => reqwest::header::AUTHORIZATION,
        StandardHeader::UserAgent => reqwest::header::USER_AGENT,
    };
    map.insert(key, value);
}

/// Relies on reqwest::Client::builder, a builder with reqwest's defaults.
#[verifier::external_body]
fn client_builder() -> ClientBuilder {
    Client::builder()
}

/// Relies on reqwest::ClientBuilder::default_headers: every request of the
/// client carries these headers.
#[verifier::external_body]
fn with_default_headers(b: ClientBuilder, headers: HeaderMap<HeaderValue>) -> ClientBuilder {
    b.default_headers(headers)
}

/// Relies on reqwest::ClientBuilder::tls_built_in_root_certs: whether the
/// built-in trust roots are used.
#[verifier::external_body]
fn with_built_in_roots(b: ClientBuilder, on: bool) -> ClientBuilder {
    b.tls_built_in_root_certs(on)
}

/// Relies on reqwest::ClientBuilder::add_root_certificate: trusts `cert`.
#[verifier::external_body]
fn with_root_certificate(b: ClientBuilder, cert: Certificate) -> ClientBuilder {
    b.add_root_certificate(cert)
}

/// Relies on reqwest::ClientBuilder::build, which fails where the TLS
/// settings cannot be put together.
#[verifier::external_body]
fn build(b: ClientBuilder) -> Result<Client, reqwest::Error> {
    b.build()
}

/// The user agent that every call to the cluster API carries.
pub fn user_agent() -> (r: &'static str)
    ensures
        r@ == "polkahub-deployer"@,
{
    "polkahub-deployer"
}

/// The `Authorization` header value for `token`.
pub fn authorization_value(token: &str) -> (r: String)
    ensures
        r@ == bearer_value(token@),
{
    let mut v = String::from_str("Bearer ");
    v.append(token);
    v
}

proof fn lemma_bearer_header_value(token: Seq<char>)
    ensures
        is_header_value(bearer_value(token)) <==> is_header_value(token),
{
    reveal_strlit("Bearer ");
    let b = bearer_value(token);
    assert(b.len() == 7 + token.len());
    if is_header_value(b) {
        assert forall|i: int| 0 <= i < token.len() implies #[trigger] header_char_ok(token[i]) by {
            assert(b[7 + i] == token[i]);
            assert(header_char_ok(b[7 + i]));
        }
    }
    if is_header_value(token) {
        assert forall|i: int| 0 <= i < b.len() implies #[trigger] header_char_ok(b[i]) by {
            if i >= 7 {
                assert(b[i] == token[i - 7]);
            }
        }
    }
}

/// Builds the client for the cluster API: it trusts exactly the CA
/// certificate given, and every call carries the bearer token and the user
/// agent. A token that no header value can hold is refused before anything
/// else; a certificate or TLS setting that reqwest refuses is refused too.
pub fn build_client(crt: &str, token: &str) -> (r: Result<Client, CredentialError>)
    ensures
        !is_header_value(token@) <==> r == Err::<Client, CredentialError>(
            CredentialError::InvalidToken,
        ),
        is_header_value(token@) && r is Err ==> r == Err::<Client, CredentialError>(
            CredentialError::InvalidCertificate,
        ),
{
    let auth = authorization_value(token);
    proof {
        lemma_bearer_header_value(token@);
    }
    let auth = match header_value(auth.as_str()) {
        Some(v) => v,
        None => return Err(CredentialError::InvalidToken),
    };
    let agent = user_agent();
    proof {
        reveal_strlit("polkahub-deployer");
    }
    assert(is_header_value(agent@));
    let agent = match header_value(agent) {
        Some(v) => v,
        None => return Err(CredentialError::InvalidToken),
    };
    let cert = match parse_certificate(crt) {
        Ok(c) => c,
        Err(_) => return Err(CredentialError::InvalidCertificate),
    };
    let mut headers = empty_headers();
    insert_header(&mut headers, StandardHeader::Authorization, auth);
    insert_header(&mut headers, StandardHeader::UserAgent, agent);
    let b = client_builder();
    let b = with_default_headers(b, headers);
    let b = with_built_in_roots(b, false);
    let b = with_root_certificate(b, cert);
    match build(b) {
        Ok(c) => Ok(c),
        Err(_) => Err(CredentialError::InvalidCertificate),
    }
}

} // verus!
