//! Tokens and accounts: what a token claims, how a request presents one,
//! and how an account is made for a Google user.

use crate::ids::{parsed_uuid, RecordId};
use crate::text::{
    chars_of, first_segment, first_segment_end, push_replaced, push_text, replace_char,
    slice_of, text_of, text_of_range,
};
use rand::Rng;
use vstd::prelude::*;

verus! {

/// How long a token is valid: seven days, in seconds.
pub const TOKEN_LIFETIME_SECONDS: i64 = 604800;

/// What a token claims.
#[derive(Debug)]
pub struct Claims {
    /// The id of the user.
    pub sub: String,
    /// When the token expires, in seconds since the epoch.
    pub exp: usize,
    /// When the token was issued, in seconds since the epoch.
    pub iat: usize,
}

/// Whether a token can be issued at `now`: time has not run backwards past
/// the epoch, and the expiry can be written down.
pub open spec fn issuable_at(now: i64) -> bool {
    0 <= now && now + TOKEN_LIFETIME_SECONDS <= i64::MAX && now + TOKEN_LIFETIME_SECONDS
        <= usize::MAX
}

impl Claims {
    /// The claims of a token issued to `user_id` at `now`: it expires seven
    /// days later.
    pub fn issue(user_id: &RecordId, now: i64) -> (claims: Claims)
        requires
            issuable_at(now),
        ensures
            claims.sub@ == user_id.text(),
            claims.iat == now,
            claims.exp == now + TOKEN_LIFETIME_SECONDS,
    {
        Claims {
            sub: user_id.to_string(),
            exp: (now + TOKEN_LIFETIME_SECONDS) as usize,
            iat: now as usize,
        }
    }

    /// The claims of a token issued to `user_id` at `now`, where one can be
    /// issued then.
    pub fn issue_checked(user_id: &RecordId, now: i64) -> (claims: Option<Claims>)
        ensures
            issuable_at(now) <==> claims is Some,
            claims matches Some(c) ==> c.sub@ == user_id.text() && c.iat == now && c.exp == now
                + TOKEN_LIFETIME_SECONDS,
    {
        if now < 0 || now > i64::MAX - TOKEN_LIFETIME_SECONDS {
            return None;
        }
        if (now + TOKEN_LIFETIME_SECONDS) as u64 > usize::MAX as u64 {
            return None;
        }
        Some(Claims::issue(user_id, now))
    }

    /// The user that the token was issued to, where its subject is an id.
    pub fn user_id(&self) -> (id: Option<RecordId>)
        ensures
            id == RecordId::from_parsed(parsed_uuid(self.sub@)),
    {
        RecordId::parse_str(self.sub.as_str())
    }
}

/// The authorization header of a request.
pub enum AuthHeader {
    /// The request has none.
    Missing,
    /// The header is not text.
    NotText,
    /// The header as text.
    Text(String),
}

/// Why a request is not let through: each is answered with 401.
#[derive(Debug, Clone, Copy, PartialEq, Eq, Structural)]
pub enum AuthRejection {
    HeaderMissing,
    HeaderInvalid,
    FormatInvalid,
    TokenInvalid,
}

impl AuthRejection {
    /// What the answer says.
    pub open spec fn text(self) -> Seq<char> {
        match self {
            AuthRejection::HeaderMissing => "Authorization header missing"@,
            AuthRejection::HeaderInvalid => "Invalid authorization header"@,
            AuthRejection::FormatInvalid => "Invalid authorization header format"@,
            AuthRejection::TokenInvalid => "Invalid token"@,
        }
    }

    /// What the answer says.
    pub fn message(&self) -> (message: &'static str)
        ensures
            message@ == self.text(),
    {
        match self {
            AuthRejection::HeaderMissing => "Authorization header missing",
            AuthRejection::HeaderInvalid => "Invalid authorization header",
            AuthRejection::FormatInvalid => "Invalid authorization header format",
            AuthRejection::TokenInvalid => "Invalid token",
        }
    }
}

/// The token that a header presents: what follows `Bearer ` in a header
/// that is text and begins so.
pub open spec fn presented_token(header: AuthHeader) -> Result<Seq<char>, AuthRejection> {
    match header {
        AuthHeader::Missing => Err(AuthRejection::HeaderMissing),
        AuthHeader::NotText => Err(AuthRejection::HeaderInvalid),
        AuthHeader::Text(text) => if "Bearer "@.is_prefix_of(text@) {
            Ok(text@.skip(7))
        } else {
            Err(AuthRejection::FormatInvalid)
        },
    }
}

/// What follows `Bearer ` in `text`, if `text` begins so.
pub fn strip_bearer(text: &str) -> (token: Option<String>)
    ensures
        match token {
            Some(t) => "Bearer "@.is_prefix_of(text@) && t@ == text@.skip(7),
            None => !"Bearer "@.is_prefix_of(text@),
        },
{
    let all = chars_of(text);
    let prefix = chars_of("Bearer ");
    proof {
        reveal_strlit("Bearer ");
    }
    if all.len() < 7 {
        return None;
    }
    let mut i: usize = 0;
    while i < 7
        invariant
            i <= 7,
            all.len() >= 7,
            all@ == text@,
            prefix@ == "Bearer "@,
            prefix@.len() == 7,
            forall|j: int| 0 <= j < i ==> all@[j] == prefix@[j],
        decreases 7 - i,
    {
        if all[i] != prefix[i] {
            return None;
        }
        i += 1;
    }
    assert(all@.skip(7) == all@.subrange(7, all.len() as int));
    assert(prefix@ =~= all@.subrange(0, 7));
    Some(text_of_range(&all, 7, all.len()))
}

/// The guard in front of the routes that need a user.
pub struct AuthMiddleware;

impl AuthMiddleware {
    /// The token that the request presents.
    pub fn bearer_token(header: &AuthHeader) -> (r: Result<String, AuthRejection>)
        ensures
            match r {
                Ok(token) => presented_token(*header) == Ok::<Seq<char>, AuthRejection>(token@),
                Err(rejection) => presented_token(*header) == Err::<Seq<char>, AuthRejection>(
                    rejection,
                ),
            },
    {
        match header {
            AuthHeader::Missing => Err(AuthRejection::HeaderMissing),
            AuthHeader::NotText => Err(AuthRejection::HeaderInvalid),
            AuthHeader::Text(text) => match strip_bearer(text.as_str()) {
                Some(token) => Ok(token),
                None => Err(AuthRejection::FormatInvalid),
            },
        }
    }

    /// The user of verified claims, where their subject is an id; a
    /// subject that is none is an invalid token.
    pub fn user_of(claims: &Claims) -> (r: Result<RecordId, AuthRejection>)
        ensures
            match RecordId::from_parsed(parsed_uuid(claims.sub@)) {
                Some(id) => r == Ok::<RecordId, AuthRejection>(id),
                None => r == Err::<RecordId, AuthRejection>(AuthRejection::TokenInvalid),
            },
    {
        match claims.user_id() {
            Some(id) => Ok(id),
            None => Err(AuthRejection::TokenInvalid),
        }
    }
}

/// The characters of which a generated password is made.
pub open spec fn password_alphabet() -> Seq<char> {
    "ABCDEFGHIJKLMNOPQRSTUVWXYZabcdefghijklmnopqrstuvwxyz0123456789"@
}

/// The user name for an email address: what precedes the first `@`, with
/// `_` for each `.` and each `+`, followed by `_google`.
pub open spec fn google_username(email: Seq<char>) -> Seq<char> {
    replace_char(replace_char(first_segment(email, '@'), '.', "_"@), '+', "_"@) + "_google"@
}

/// Calls `gen_range(0..bound)` on rand's thread-local generator: some index
/// below `bound`, a different one from call to call.
#[verifier::external_body]
fn random_below(bound: usize) -> (index: usize)
    requires
        bound > 0,
    ensures
        index < bound,
{
    rand::thread_rng().gen_range(0..bound)
}

/// The accounts that are made for users who sign in with Google.
pub struct GoogleAuthService;

impl GoogleAuthService {
    /// The user name for an email address.
    pub fn generate_username_from_email(email: &str) -> (name: String)
        ensures
            name@ == google_username(email@),
    {
        let all = chars_of(email);
        let end = first_segment_end(&all, '@');
        let local = slice_of(&all, 0, end);
        let mut underscored: Vec<char> = Vec::new();
        push_replaced(&mut underscored, &local, '.', "_");
        let mut out: Vec<char> = Vec::new();
        push_replaced(&mut out, &underscored, '+', "_");
        push_text(&mut out, "_google");
        text_of(&out)
    }

    /// The password character for an index into the alphabet.
    pub fn password_char(index: usize) -> (c: char)
        requires
            index < 62,
        ensures
            c == password_alphabet()[index as int],
    {
        let alphabet = "ABCDEFGHIJKLMNOPQRSTUVWXYZabcdefghijklmnopqrstuvwxyz0123456789";
        proof {
            reveal_strlit("ABCDEFGHIJKLMNOPQRSTUVWXYZabcdefghijklmnopqrstuvwxyz0123456789");
        }
        alphabet.get_char(index)
    }

    /// A password of 32 characters, each drawn from the alphabet of
    /// letters and digits.
    pub fn generate_random_password() -> (password: String)
        ensures
            password@.len() == 32,
            forall|i: int| 0 <= i < 32 ==> password_alphabet().contains(#[trigger] password@[i]),
    {
        proof {
            reveal_strlit("ABCDEFGHIJKLMNOPQRSTUVWXYZabcdefghijklmnopqrstuvwxyz0123456789");
        }
        let mut out: Vec<char> = Vec::new();
        let mut i: usize = 0;
        while i < 32
            invariant
                i <= 32,
                out@.len() == i,
                password_alphabet().len() == 62,
                forall|j: int| 0 <= j < i ==> password_alphabet().contains(#[trigger] out@[j]),
            decreases 32 - i,
        {
            let index = random_below(62);
            let c = Self::password_char(index);
            assert(password_alphabet().contains(c));
            out.push(c);
            i += 1;
        }
        text_of(&out)
    }
}

/// What `bcrypt::verify` makes of a password and a stored hash: whether they
/// match, or nothing where the hash cannot be read.
pub uninterp spec fn bcrypt_verdict(password: Seq<char>, hash: Seq<char>) -> Option<bool>;

/// Calls `bcrypt::verify`, which hashes the password again with the salt and
/// the cost that the stored hash states and compares: the verdict depends on
/// the two texts alone. An error of the call is handed on as no verdict.
#[verifier::external_body]
fn verify_password(password: &str, hash: &str) -> (verdict: Option<bool>)
    ensures
        verdict == bcrypt_verdict(password@, hash@),
{
    bcrypt::verify(password, hash).ok()
}

/// Why a login is turned away.
#[derive(Debug, Clone, Copy, PartialEq, Eq, Structural)]
pub enum LoginRefusal {
    /// No such user, or the password does not match.
    InvalidCredentials,
    /// The stored hash cannot be read.
    HashUnreadable,
}

/// Whether a login goes through, given the verdict on the password against
/// the hash of the user, where there is such a user.
pub open spec fn login_verdict(verdict: Option<Option<bool>>) -> Result<(), LoginRefusal> {
    match verdict {
        None => Err(LoginRefusal::InvalidCredentials),
        Some(None) => Err(LoginRefusal::HashUnreadable),
        Some(Some(false)) => Err(LoginRefusal::InvalidCredentials),
        Some(Some(true)) => Ok(()),
    }
}

/// The verdict on `password` against the stored hash, where there is one.
pub open spec fn stored_verdict(stored_hash: Option<String>, password: Seq<char>) -> Option<
    Option<bool>,
> {
    match stored_hash {
        Some(hash) => Some(bcrypt_verdict(password, hash@)),
        None => None,
    }
}

/// The accounts that sign in with a password.
pub struct AuthService;

impl AuthService {
    /// Whether a login goes through, given the verdict on the password.
    pub fn judge_login(verdict: Option<Option<bool>>) -> (r: Result<(), LoginRefusal>)
        ensures
            r == login_verdict(verdict),
    {
        match verdict {
            None => Err(LoginRefusal::InvalidCredentials),
            Some(None) => Err(LoginRefusal::HashUnreadable),
            Some(Some(false)) => Err(LoginRefusal::InvalidCredentials),
            Some(Some(true)) => Ok(()),
        }
    }

    /// Checks `password` against the stored hash of the user who was
    /// looked up, if one was found.
    pub fn login(stored_hash: &Option<String>, password: &str) -> (r: Result<(), LoginRefusal>)
        ensures
            r == login_verdict(stored_verdict(*stored_hash, password@)),
    {
        let verdict = match stored_hash {
            Some(hash) => Some(verify_password(password, hash.as_str())),
            None => None,
        };
        Self::judge_login(verdict)
    }

    /// Why a registration is turned away where the email or the user name
    /// is taken.
    pub fn register(already_exists: bool) -> (refusal: Option<&'static str>)
        ensures
            match refusal {
                Some(message) => already_exists && message@
                    == "User with this email or username already exists"@,
                None => !already_exists,
            },
    {
        if already_exists {
            Some("User with this email or username already exists")
        } else {
            None
        }
    }
}

} // verus!
