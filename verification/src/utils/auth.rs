//! The token service: issues signed bearer tokens and validates them
//! against the list of banned tokens.
//!
//! A token is a text of three parts, one after the other: the signature
//! (64 hexadecimal digits), the times of issue and of expiry (16
//! hexadecimal digits each, seconds since the Unix epoch), and the subject.
//! The signature is the HMAC-SHA256 of everything that follows it, under
//! the secret of the service. Callers treat the text as opaque.

use vstd::prelude::*;
use hmac::Hmac;
use hmac::Mac;
use sha2::Sha256;
use crate::domain::data_stores::token_banned;
use crate::domain::data_stores::BannedTokenStore;
use crate::domain::email::Email;
use crate::domain::token::Token;
use crate::utils::hex::encode_bytes;
use crate::utils::hex::hex_bytes;
use crate::utils::hex::hex_text;
use crate::utils::hex::hex_value;
use crate::utils::hex::lemma_hex_bytes_len;
use crate::utils::hex::lemma_hex_round_trip;
use crate::utils::hex::lemma_hex_text_len;
use crate::utils::hex::lemma_pow16_sixteen;
use crate::utils::hex::parse_hex_u64;
use crate::utils::hex::push_hex;
use crate::utils::text::chars_of;
use crate::utils::text::string_of;

verus! {

/// How long a token is valid, in seconds.
pub const TOKEN_TTL_SECONDS: u64 = 600;

/// The number of characters that the signature takes.
pub const SIGNATURE_LENGTH: usize = 64;

/// The number of characters before the subject.
pub const HEADER_LENGTH: usize = 96;

/// The HMAC-SHA256 tag of `message` (its UTF-8 bytes) under `key`, as the
/// `hmac` crate computes it; `None` where the crate refuses the key.
pub uninterp spec fn hmac_sha256(key: Seq<u8>, message: Seq<char>) -> Option<Seq<u8>>;

/// Calls `Hmac::<Sha256>::new_from_slice`, `update` and `finalize`. The
/// result is named `hmac_sha256`; nothing else is claimed of it.
#[verifier::external_body]
fn hmac_sha256_tag(key: &[u8], message: &str) -> (r: Option<Vec<u8>>)
    ensures
        match r {
            Some(tag) => hmac_sha256(key@, message@) == Some(tag@),
            None => hmac_sha256(key@, message@) is None,
        },
{
    match Hmac::<Sha256>::new_from_slice(key) {
        Ok(mut mac) => {
            mac.update(message.as_bytes());
            Some(mac.finalize().into_bytes().to_vec())
        },
        Err(_) => None,
    }
}

/// The time at which a token issued at `now` expires: `ttl` seconds later,
/// or the end of time where that cannot be written.
pub open spec fn token_expiry(now: u64, ttl: u64) -> u64 {
    if now > u64::MAX - ttl {
        u64::MAX
    } else {
        (now + ttl) as u64
    }
}

/// The signed part of a token: both times, then the subject.
pub open spec fn token_payload(subject: Seq<char>, issued_at: u64, expires_at: u64) -> Seq<char> {
    hex_text(issued_at as int, 16) + hex_text(expires_at as int, 16) + subject
}

/// The signature of `payload` under `secret`: the tag in hexadecimal,
/// provided it can be computed and has the 32 bytes of SHA-256.
pub open spec fn signature(secret: Seq<u8>, payload: Seq<char>) -> Option<Seq<char>> {
    match hmac_sha256(secret, payload) {
        Some(tag) => if tag.len() == 32 {
            Some(hex_bytes(tag))
        } else {
            None
        },
        None => None,
    }
}

/// The token that binds `subject` to the two times under `secret`.
pub open spec fn signed_token(
    secret: Seq<u8>,
    subject: Seq<char>,
    issued_at: u64,
    expires_at: u64,
) -> Option<Seq<char>> {
    let payload = token_payload(subject, issued_at, expires_at);
    match signature(secret, payload) {
        Some(sig) => Some(sig + payload),
        None => None,
    }
}

/// What a valid token says.
pub struct ClaimsView {
    pub sub: Seq<char>,
    pub iat: u64,
    pub exp: u64,
}

/// What a valid token says: its subject and the times of issue and expiry.
#[derive(Debug)]
pub struct Claims {
    /// The e-mail address of the principal.
    pub sub: String,
    /// The time of issue.
    pub iat: u64,
    /// The time from which the token is no longer valid.
    pub exp: u64,
}

impl View for Claims {
    type V = ClaimsView;

    open spec fn view(&self) -> ClaimsView {
        ClaimsView { sub: self.sub@, iat: self.iat, exp: self.exp }
    }
}

/// What the service makes of a token text at a given time.
pub enum TokenVerdict {
    /// The token is on the list of banned tokens.
    Revoked,
    /// The text does not have the shape of a token.
    Malformed,
    /// The signature cannot be computed.
    Unverifiable,
    /// The signature is not the one of the payload.
    BadSignature,
    /// The token was valid and is no longer.
    Expired,
    /// The token is valid and says this.
    Valid(ClaimsView),
}

/// The verdict on a token that is not banned. The shape is checked first,
/// then the signature, then the expiry.
pub open spec fn signed_verdict(secret: Seq<u8>, token: Seq<char>, now: u64) -> TokenVerdict {
    if token.len() < HEADER_LENGTH {
        TokenVerdict::Malformed
    } else {
        match (hex_value(token.subrange(64, 80)), hex_value(token.subrange(80, 96))) {
            (Some(iat), Some(exp)) => match signature(secret, token.skip(64)) {
                None => TokenVerdict::Unverifiable,
                Some(sig) => if sig != token.take(64) {
                    TokenVerdict::BadSignature
                } else if exp <= now {
                    TokenVerdict::Expired
                } else {
                    TokenVerdict::Valid(
                        ClaimsView { sub: token.skip(96), iat: iat as u64, exp: exp as u64 },
                    )
                },
            },
            _ => TokenVerdict::Malformed,
        }
    }
}

/// The verdict on `token` at the time `now`: a banned token is revoked,
/// whatever else holds of it; any other is judged by shape, signature and
/// expiry.
pub open spec fn token_verdict(
    secret: Seq<u8>,
    banned: Map<Seq<char>, u64>,
    token: Seq<char>,
    now: u64,
) -> TokenVerdict {
    if token_banned(banned, token, now) {
        TokenVerdict::Revoked
    } else {
        signed_verdict(secret, token, now)
    }
}

/// Why a token was not accepted.
#[derive(Debug)]
pub enum TokenError {
    Expired,
    BadSignature,
    Malformed,
    Revoked,
    /// The check could not be made; the text describes the cause.
    UnexpectedError(String),
}

impl TokenError {
    /// The description of what went wrong: the cause of an unexpected
    /// error, the name of any other.
    pub fn into_cause(self) -> (cause: String)
        ensures
            cause@ == match self {
                TokenError::Expired => "the token has expired"@,
                TokenError::BadSignature => "the signature does not match"@,
                TokenError::Malformed => "the text is no token"@,
                TokenError::Revoked => "the token is banned"@,
                TokenError::UnexpectedError(text) => text@,
            },
    {
        match self {
            TokenError::Expired => String::from_str("the token has expired"),
            TokenError::BadSignature => String::from_str("the signature does not match"),
            TokenError::Malformed => String::from_str("the text is no token"),
            TokenError::Revoked => String::from_str("the token is banned"),
            TokenError::UnexpectedError(text) => text,
        }
    }
}

/// The verdict that a result of `validate` stands for. A check that could
/// not be made stands for no verdict.
pub open spec fn verdict_of(r: Result<Claims, TokenError>) -> Option<TokenVerdict> {
    match r {
        Ok(claims) => Some(TokenVerdict::Valid(claims@)),
        Err(TokenError::Expired) => Some(TokenVerdict::Expired),
        Err(TokenError::BadSignature) => Some(TokenVerdict::BadSignature),
        Err(TokenError::Malformed) => Some(TokenVerdict::Malformed),
        Err(TokenError::Revoked) => Some(TokenVerdict::Revoked),
        Err(TokenError::UnexpectedError(_)) => None,
    }
}

/// The token service. It is made from the signing secret and the lifetime
/// of its tokens, and holds nothing else.
pub struct TokenService {
    secret: Vec<u8>,
    ttl_seconds: u64,
}

impl TokenService {
    /// The signing secret.
    pub closed spec fn secret(&self) -> Seq<u8> {
        self.secret@
    }

    /// The lifetime of a token, in seconds.
    pub closed spec fn ttl(&self) -> u64 {
        self.ttl_seconds
    }

    /// A service that signs with `secret` and issues tokens that are valid
    /// for `ttl_seconds`.
    pub fn new(secret: Vec<u8>, ttl_seconds: u64) -> (service: TokenService)
        ensures
            service.secret() == secret@,
            service.ttl() == ttl_seconds,
    {
        TokenService { secret, ttl_seconds }
    }

    /// The time at which a token issued at `now` expires.
    pub fn expiry(&self, now: u64) -> (expires_at: u64)
        ensures
            expires_at == token_expiry(now, self.ttl()),
    {
        if now > u64::MAX - self.ttl_seconds {
            u64::MAX
        } else {
            now + self.ttl_seconds
        }
    }

    fn sign(&self, payload: &str) -> (r: Option<String>)
        ensures
            match r {
                Some(sig) => signature(self.secret(), payload@) == Some(sig@),
                None => signature(self.secret(), payload@) is None,
            },
    {
        match hmac_sha256_tag(self.secret.as_slice(), payload) {
            Some(tag) => {
                if tag.len() == 32 {
                    Some(encode_bytes(&tag))
                } else {
                    None
                }
            },
            None => None,
        }
    }

    /// Issues the token that binds `email` to the time `now` and to the
    /// expiry that follows from it. It fails only where the signature
    /// cannot be computed.
    pub fn issue(&self, email: &Email, now: u64) -> (r: Result<Token, TokenError>)
        ensures
            match r {
                Ok(token) => signed_token(
                    self.secret(),
                    email@,
                    now,
                    token_expiry(now, self.ttl()),
                ) == Some(token@),
                Err(e) => signed_token(self.secret(), email@, now, token_expiry(now, self.ttl()))
                    is None && e is UnexpectedError,
            },
    {
        let expires_at = self.expiry(now);
        let mut payload = String::new();
        push_hex(&mut payload, now, 16);
        push_hex(&mut payload, expires_at, 16);
        payload.append(email.as_ref());
        assert(payload@ =~= token_payload(email@, now, expires_at));
        match self.sign(payload.as_str()) {
            Some(sig) => Ok(Token(sig.concat(payload.as_str()))),
            None => Err(TokenError::UnexpectedError(String::from_str("the token cannot be signed"))),
        }
    }

    /// Judges a token that is known not to be banned.
    pub fn validate_signed(&self, token: &str, now: u64) -> (r: Result<Claims, TokenError>)
        ensures
            match verdict_of(r) {
                Some(verdict) => verdict == signed_verdict(self.secret(), token@, now),
                None => signed_verdict(self.secret(), token@, now) is Unverifiable,
            },
    {
        let chars = chars_of(token);
        let n = chars.len();
        if n < HEADER_LENGTH {
            return Err(TokenError::Malformed);
        }
        let issued_at = match parse_hex_u64(&chars, 64) {
            Some(v) => v,
            None => {
                return Err(TokenError::Malformed);
            },
        };
        let expires_at = match parse_hex_u64(&chars, 80) {
            Some(v) => v,
            None => {
                return Err(TokenError::Malformed);
            },
        };
        let payload = string_of(&chars, SIGNATURE_LENGTH, n);
        let given = string_of(&chars, 0, SIGNATURE_LENGTH);
        assert(payload@ == token@.skip(64));
        assert(given@ == token@.take(64));
        let expected = match self.sign(payload.as_str()) {
            Some(sig) => sig,
            None => {
                return Err(
                    TokenError::UnexpectedError(String::from_str("the token cannot be checked")),
                );
            },
        };
        if expected != given {
            return Err(TokenError::BadSignature);
        }
        if expires_at <= now {
            return Err(TokenError::Expired);
        }
        let sub = string_of(&chars, HEADER_LENGTH, n);
        assert(sub@ == token@.skip(96));
        Ok(Claims { sub, iat: issued_at, exp: expires_at })
    }

    /// Judges `token` at the time `now`. The list of banned tokens is asked
    /// first: a banned token is `Revoked` and its signature is not even
    /// looked at. `UnexpectedError` comes back only where the list failed
    /// or the signature cannot be computed.
    pub fn validate<B: BannedTokenStore>(
        &self,
        token: &str,
        banned_token_store: &B,
        now: u64,
    ) -> (r: Result<Claims, TokenError>)
        ensures
            match verdict_of(r) {
                Some(verdict) => verdict == token_verdict(
                    self.secret(),
                    banned_token_store.banned(),
                    token@,
                    now,
                ),
                None => !banned_token_store.reliable() || token_verdict(
                    self.secret(),
                    banned_token_store.banned(),
                    token@,
                    now,
                ) is Unverifiable,
            },
    {
        match banned_token_store.check_banned_token(token, now) {
            Ok(true) => Err(TokenError::Revoked),
            Ok(false) => self.validate_signed(token, now),
            Err(e) => Err(TokenError::UnexpectedError(e.into_cause())),
        }
    }
}

/// A token that was issued is valid from its issue until it expires: as
/// long as it is not banned, validation returns its subject and its two
/// times.
pub proof fn lemma_issued_token_is_valid(
    secret: Seq<u8>,
    banned: Map<Seq<char>, u64>,
    subject: Seq<char>,
    issued_at: u64,
    expires_at: u64,
    now: u64,
)
    requires
        signed_token(secret, subject, issued_at, expires_at) is Some,
        !token_banned(banned, signed_token(secret, subject, issued_at, expires_at)->0, now),
        now < expires_at,
    ensures
        token_verdict(
            secret,
            banned,
            signed_token(secret, subject, issued_at, expires_at)->0,
            now,
        ) == TokenVerdict::Valid(ClaimsView { sub: subject, iat: issued_at, exp: expires_at }),
{
    lemma_token_shape(secret, subject, issued_at, expires_at);
}

/// An issued token that has expired is judged `Expired`, unless it is
/// banned.
pub proof fn lemma_issued_token_expires(
    secret: Seq<u8>,
    subject: Seq<char>,
    issued_at: u64,
    expires_at: u64,
    now: u64,
)
    requires
        signed_token(secret, subject, issued_at, expires_at) is Some,
        expires_at <= now,
    ensures
        signed_verdict(secret, signed_token(secret, subject, issued_at, expires_at)->0, now)
            == TokenVerdict::Expired,
{
    lemma_token_shape(secret, subject, issued_at, expires_at);
}

/// The parts of an issued token are where validation looks for them.
proof fn lemma_token_shape(secret: Seq<u8>, subject: Seq<char>, issued_at: u64, expires_at: u64)
    requires
        signed_token(secret, subject, issued_at, expires_at) is Some,
    ensures
        ({
            let token = signed_token(secret, subject, issued_at, expires_at)->0;
            let payload = token_payload(subject, issued_at, expires_at);
            &&& token.len() >= HEADER_LENGTH
            &&& token.take(64) == signature(secret, payload)->0
            &&& token.skip(64) == payload
            &&& token.skip(96) == subject
            &&& hex_value(token.subrange(64, 80)) == Some(issued_at as int)
            &&& hex_value(token.subrange(80, 96)) == Some(expires_at as int)
        }),
{
    let payload = token_payload(subject, issued_at, expires_at);
    let sig = signature(secret, payload)->0;
    let token = signed_token(secret, subject, issued_at, expires_at)->0;
    let tag = hmac_sha256(secret, payload)->0;
    lemma_hex_bytes_len(tag);
    lemma_hex_text_len(issued_at as int, 16);
    lemma_hex_text_len(expires_at as int, 16);
    lemma_pow16_sixteen();
    lemma_hex_round_trip(issued_at as int, 16);
    lemma_hex_round_trip(expires_at as int, 16);
    assert(sig.len() == 64);
    assert(token == sig + payload);
    assert(token.take(64) =~= sig);
    assert(token.skip(64) =~= payload);
    assert(token.skip(96) =~= subject);
    assert(token.subrange(64, 80) =~= hex_text(issued_at as int, 16));
    assert(token.subrange(80, 96) =~= hex_text(expires_at as int, 16));
}

} // verus!
