//! What the server decides around a credential: where the token stands in a
//! request, which key it is checked against, and which player it belongs
//! to.  Checking the signature itself is left to the validator.

use crate::certificate::{is_shallow_certificate, shallow_certificate};
use crate::model::opt_text;
use crate::store::{find_field, lookup, pair_texts};
use crate::text::{strip_prefix, without_prefix};
use jsonwebtoken::{Algorithm, DecodingKey, Validation};
use vstd::prelude::*;
use vstd::string::*;

verus! {

/// A key against which the signature of a token is checked.
#[verifier::external_type_specification]
#[verifier::external_body]
pub struct ExDecodingKey(DecodingKey);

/// The id of the key that the header of the token `token` names.  The
/// outer option tells whether the header could be read, the inner one
/// whether it names a key.
pub uninterp spec fn key_id_of(token: Seq<char>) -> Option<Option<Seq<char>>>;

/// Whether the text `pem` holds an RSA key that a signature can be checked
/// against.
pub uninterp spec fn pem_holds_key(pem: Seq<char>) -> bool;

/// Calls `jsonwebtoken::decode_header` and takes the field `kid` of the
/// header.  The claim: the call returns on every text, and what it yields
/// depends on the text alone.
#[verifier::external_body]
pub(crate) fn header_key_id(token: &str) -> (r: Option<Option<String>>)
    ensures
        match r {
            Some(kid) => key_id_of(token@) == Some(opt_text(kid)),
            None => key_id_of(token@) is None,
        },
{
    match jsonwebtoken::decode_header(token) {
        Ok(header) => Some(header.kid),
        Err(_) => None,
    }
}

/// Whether the text `pem` is a certificate in PEM armour that is looked at
/// as a key: what stands in the armour is base64 text of modest length and
/// nests no deeper than certificates do.
pub open spec fn safe_key_text(pem: Seq<char>) -> bool {
    exists|body: Seq<char>| #[trigger] pem_text(body) == pem && shallow_certificate(body)
}

/// Calls `jsonwebtoken::DecodingKey::from_rsa_pem` on the bytes of the
/// text.  The claim: on a certificate that is looked at the call returns,
/// and whether it yields a key depends on the text alone.  The decoder
/// behind the call goes one level deeper for every value that holds values,
/// and so do the functions that search what it decoded; the bound on the
/// nesting bounds them all.
#[verifier::external_body]
pub(crate) fn rsa_key(pem: &str) -> (r: Option<DecodingKey>)
    requires
        safe_key_text(pem@),
    ensures
        r is Some <==> pem_holds_key(pem@),
{
    match DecodingKey::from_rsa_pem(pem.as_bytes()) {
        Ok(key) => Some(key),
        Err(_) => None,
    }
}

/// Calls `jsonwebtoken::decode` for a `serde_json::Value` with the
/// validation that `Validation::new` gives for RS256, and takes the claims
/// `sub` and `exp` of the result.  Nothing is claimed of the outcome: it
/// depends on the time at which the call is made.
#[verifier::external_body]
pub(crate) fn checked_claims(token: &str, key: &DecodingKey) -> Option<Claims> {
    let validation = Validation::new(Algorithm::RS256);
    let data = jsonwebtoken::decode::<serde_json::Value>(token, key, &validation).ok()?;
    let sub = data.claims.get("sub")?.as_str()?.to_string();
    let exp = data.claims.get("exp")?.as_u64()? as usize;
    Some(Claims { sub, exp })
}

/// The claims of a validated token.
#[derive(Debug)]
pub struct Claims {
    /// The subject: the user as the identity provider knows it.
    pub sub: String,
    /// The time at which the token expires.
    pub exp: usize,
}

/// Why no player could be made out for a request.
#[derive(Clone, Copy, Debug, PartialEq, Eq, Structural)]
pub enum AuthFailure {
    /// The request carries no bearer token.
    MissingHeader,
    /// The token is invalid or has expired.
    InvalidToken,
    /// The token names no subject.
    MissingSubject,
    /// The user directory cannot be reached.
    DatabaseUnavailable,
    /// The user could not be found after it was created.
    UserNotCreated,
}

/// The HTTP status that reports a failure.
pub open spec fn failure_status(f: AuthFailure) -> u16 {
    match f {
        AuthFailure::MissingHeader => 401,
        AuthFailure::InvalidToken => 401,
        AuthFailure::MissingSubject => 401,
        AuthFailure::DatabaseUnavailable => 500,
        AuthFailure::UserNotCreated => 404,
    }
}

/// The text that reports a failure.
pub open spec fn failure_text(f: AuthFailure) -> Seq<char> {
    match f {
        AuthFailure::MissingHeader => "Authorization header missing or invalid"@,
        AuthFailure::InvalidToken => "Invalid or expired token"@,
        AuthFailure::MissingSubject => "Missing 'sub' claim in token"@,
        AuthFailure::DatabaseUnavailable => "Database connection failed"@,
        AuthFailure::UserNotCreated => "User not found after creating user"@,
    }
}

impl AuthFailure {
    /// The HTTP status that reports the failure.
    pub fn status_code(&self) -> (r: u16)
        ensures
            r == failure_status(*self),
    {
        match self {
            AuthFailure::MissingHeader => 401,
            AuthFailure::InvalidToken => 401,
            AuthFailure::MissingSubject => 401,
            AuthFailure::DatabaseUnavailable => 500,
            AuthFailure::UserNotCreated => 404,
        }
    }

    /// The text that reports the failure.
    pub fn message(&self) -> (r: String)
        ensures
            r@ == failure_text(*self),
    {
        match self {
            AuthFailure::MissingHeader => String::from_str(
                "Authorization header missing or invalid",
            ),
            AuthFailure::InvalidToken => String::from_str("Invalid or expired token"),
            AuthFailure::MissingSubject => String::from_str("Missing 'sub' claim in token"),
            AuthFailure::DatabaseUnavailable => String::from_str("Database connection failed"),
            AuthFailure::UserNotCreated => String::from_str("User not found after creating user"),
        }
    }
}

/// Takes the token out of the value of an `Authorization` header: what
/// follows the word `Bearer` and one space.
pub fn extract_bearer_token(header: &str) -> (r: Option<String>)
    ensures
        opt_text(r) == without_prefix(header@, "Bearer "@),
{
    strip_prefix(header, "Bearer ")
}

/// The certificate `body` in PEM armour.
pub open spec fn pem_text(body: Seq<char>) -> Seq<char> {
    "-----BEGIN CERTIFICATE-----\n"@ + body + "\n-----END CERTIFICATE-----"@
}

/// Puts a certificate in PEM armour.
pub fn pem_certificate(body: &str) -> (r: String)
    ensures
        r@ == pem_text(body@),
{
    String::from_str("-----BEGIN CERTIFICATE-----\n").concat(body).concat(
        "\n-----END CERTIFICATE-----",
    )
}

/// Finds, among the keys of a key set given as pairs of key id and
/// certificate, the certificate of the first key with the id `kid`.
pub fn find_certificate(keys: &Vec<(String, String)>, kid: &str) -> (r: Option<String>)
    ensures
        opt_text(r) == lookup(pair_texts(keys@), kid@),
{
    find_field(keys, kid)
}

/// The subject of a token, given what the validator made of the token:
/// nothing is an invalid token, claims without a subject are refused.
pub open spec fn subject_of(claims: Option<Seq<char>>) -> Result<Seq<char>, AuthFailure> {
    match claims {
        None => Err(AuthFailure::InvalidToken),
        Some(sub) => if sub.len() == 0 {
            Err(AuthFailure::MissingSubject)
        } else {
            Ok(sub)
        },
    }
}

/// Reads the subject from what the validator made of a token.
pub fn validate_jwt_sub(claims: Option<&Claims>) -> (r: Result<String, AuthFailure>)
    ensures
        match r {
            Ok(sub) => subject_of(
                match claims {
                    Some(c) => Some(c.sub@),
                    None => None,
                },
            ) == Ok::<Seq<char>, AuthFailure>(sub@),
            Err(f) => subject_of(
                match claims {
                    Some(c) => Some(c.sub@),
                    None => None,
                },
            ) == Err::<Seq<char>, AuthFailure>(f),
        },
{
    match claims {
        None => Err(AuthFailure::InvalidToken),
        Some(c) => if c.sub.as_str().unicode_len() == 0 {
            Err(AuthFailure::MissingSubject)
        } else {
            Ok(c.sub.clone())
        },
    }
}

/// What the server does once it has looked a subject up in the user
/// directory.
#[derive(Clone, Copy, Debug, PartialEq, Eq, Structural)]
pub enum Resolution {
    /// The subject is the known player `user_id`.
    Known { user_id: u32 },
    /// The subject is new: create it, then look it up again.
    Create,
}

/// Decides what follows a lookup in the user directory.
pub fn get_user_id_by_external_user_id(found: Option<u32>) -> (r: Resolution)
    ensures
        r == match found {
            Some(user_id) => Resolution::Known { user_id },
            None => Resolution::Create,
        },
{
    match found {
        Some(user_id) => Resolution::Known { user_id },
        None => Resolution::Create,
    }
}

/// Decides what follows the creation of a user: the player found by the
/// second lookup, or a failure if there is none.
pub fn create_user(found_after: Option<u32>) -> (r: Result<u32, AuthFailure>)
    ensures
        r == match found_after {
            Some(user_id) => Ok::<u32, AuthFailure>(user_id),
            None => Err::<u32, AuthFailure>(AuthFailure::UserNotCreated),
        },
{
    match found_after {
        Some(user_id) => Ok(user_id),
        None => Err(AuthFailure::UserNotCreated),
    }
}

/// Why a token is not accepted.
#[derive(Clone, Copy, Debug, PartialEq, Eq, Structural)]
pub enum TokenError {
    /// The header of the token cannot be read.
    HeaderUnreadable,
    /// The header names no key.
    NoKeyId,
    /// The key set holds no key of that id.
    KeyNotFound,
    /// The certificate of the key holds no usable key.
    KeyUnreadable,
    /// The signature is wrong, the token has expired, or its claims cannot
    /// be read.
    Invalid,
}

/// The key against which the token `token` is checked, as a certificate in
/// PEM armour: the certificate of the first key of the key set `keys` with
/// the id that the header of the token names.  A certificate that is too
/// long or nests too deep to be looked at counts as unreadable.
pub open spec fn key_for(token: Seq<char>, keys: Seq<(Seq<char>, Seq<char>)>) -> Result<
    Seq<char>,
    TokenError,
> {
    match key_id_of(token) {
        None => Err(TokenError::HeaderUnreadable),
        Some(None) => Err(TokenError::NoKeyId),
        Some(Some(kid)) => match lookup(keys, kid) {
            None => Err(TokenError::KeyNotFound),
            Some(cert) => if shallow_certificate(cert) && pem_holds_key(pem_text(cert)) {
                Ok(pem_text(cert))
            } else {
                Err(TokenError::KeyUnreadable)
            },
        },
    }
}

/// Concludes the validation of a token from what the check of its signature
/// and its claims gave.
pub fn token_verdict(checked: Option<Claims>) -> (r: Result<Claims, TokenError>)
    ensures
        match checked {
            Some(c) => r matches Ok(accepted) && accepted == c,
            None => r matches Err(e) && e == TokenError::Invalid,
        },
{
    match checked {
        Some(c) => Ok(c),
        None => Err(TokenError::Invalid),
    }
}

/// Validates a token against the key set `keys`, given as pairs of key id
/// and certificate.  Which key the token is checked against, and each
/// failure to find one, is decided by the token and the key set; whether a
/// token with a key passes depends on its signature, its claims and the
/// time.
pub fn validate_token(token: &str, keys: &Vec<(String, String)>) -> (r: Result<
    Claims,
    TokenError,
>)
    ensures
        match key_for(token@, pair_texts(keys@)) {
            Err(e) => r matches Err(x) && x == e,
            Ok(_) => r is Ok || (r matches Err(x) && x == TokenError::Invalid),
        },
{
    let kid = match header_key_id(token) {
        None => {
            return Err(TokenError::HeaderUnreadable);
        },
        Some(None) => {
            return Err(TokenError::NoKeyId);
        },
        Some(Some(kid)) => kid,
    };
    let cert = match find_certificate(keys, kid.as_str()) {
        None => {
            return Err(TokenError::KeyNotFound);
        },
        Some(cert) => cert,
    };
    if !is_shallow_certificate(cert.as_str()) {
        return Err(TokenError::KeyUnreadable);
    }
    let pem = pem_certificate(cert.as_str());
    assert(pem_text(cert@) == pem@);
    match rsa_key(pem.as_str()) {
        None => Err(TokenError::KeyUnreadable),
        Some(key) => token_verdict(checked_claims(token, &key)),
    }
}

} // verus!
