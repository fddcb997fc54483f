//! Sign-in tokens: a JSON claims set signed with HMAC-SHA256 by
//! `jsonwebtoken`, valid for seven days.

use vstd::prelude::*;
use vstd::string::*;
use crate::clock::{now_utc, Timestamp};
use crate::text::{decimal_int, json_string, push_decimal_i64, push_json_string};

verus! {

/// The key that signs tokens.
pub const JWT_SECRET: &'static str = "your-secret-key";

/// How long a token stays valid: seven days, in seconds.
pub const TOKEN_LIFETIME_SECS: i64 = 604800;

/// The claims of a token as JSON text, keys in sorted order as `serde_json`
/// writes an object: `{"admin":…,"email":…,"exp":…,"sub":…}`.
pub open spec fn claims_json(sub: Seq<char>, email: Seq<char>, admin: bool, exp: int) -> Seq<char> {
    "{\"admin\":"@ + (if admin {
        "true"@
    } else {
        "false"@
    }) + ",\"email\":"@ + json_string(email) + ",\"exp\":"@ + decimal_int(exp) + ",\"sub\":"@
        + json_string(sub) + "}"@
}

/// What `jsonwebtoken::encode` with the default header (HS256) returns for a
/// claims set given as raw JSON text and a key given as text, or its error's
/// message.
pub uninterp spec fn jwt_hs256(claims: Seq<char>, secret: Seq<char>) -> Result<Seq<char>, Seq<char>>;

/// The text view of a string result.
pub open spec fn text_result(r: Result<String, String>) -> Result<Seq<char>, Seq<char>> {
    match r {
        Ok(s) => Ok(s@),
        Err(e) => Err(e@),
    }
}

/// The token issued at second `issued` for a user: the claims name the user
/// (`sub`), the e-mail address, whether the user is an administrator, and
/// the expiry seven days on.
pub open spec fn token_for(sub: Seq<char>, email: Seq<char>, admin: bool, issued: int) -> Result<
    Seq<char>,
    Seq<char>,
> {
    jwt_hs256(claims_json(sub, email, admin, issued + TOKEN_LIFETIME_SECS), JWT_SECRET@)
}

/// Builds the JSON claims text of a token.
pub fn token_claims_json(sub: &str, email: &str, admin: bool, exp: i64) -> (r: String)
    ensures
        r@ == claims_json(sub@, email@, admin, exp as int),
{
    let mut s = String::new();
    s.append("{\"admin\":");
    if admin {
        s.append("true");
    } else {
        s.append("false");
    }
    s.append(",\"email\":");
    push_json_string(&mut s, email);
    s.append(",\"exp\":");
    push_decimal_i64(&mut s, exp);
    s.append(",\"sub\":");
    push_json_string(&mut s, sub);
    s.append("}");
    assert(s@ =~= claims_json(sub@, email@, admin, exp as int));
    s
}

/// The text is the claims of some account: a subject, an address, a flag and
/// an expiry second that fits an `i64`.
pub open spec fn account_claims(claims: Seq<char>) -> bool {
    exists|sub: Seq<char>, email: Seq<char>, admin: bool, exp: i64| #[trigger] claims_json(sub, email, admin, exp as int) == claims
}

/// Claims of an account are valid JSON, so signing them succeeds.
pub open spec fn signs_account_claims(claims: Seq<char>, r: Result<String, String>) -> bool {
    account_claims(claims) ==> r is Ok
}

/// `jsonwebtoken::encode` with `Header::default()` (HS256), the claims given
/// as raw JSON text (`serde_json::value::RawValue`, which writes the text as
/// it is) and the key `EncodingKey::from_secret` of the text's bytes.
/// Claimed beyond the name: signing the claims of an account succeeds. Their
/// text is valid JSON (strings escaped as `json_escape` does, a decimal
/// number, `true` or `false`), so `RawValue::from_string` accepts it; the
/// key's family is HMAC as HS256's is, and HMAC signing does not fail.
#[verifier::external_body]
pub fn sign_claims(claims: &str, secret: &str) -> (r: Result<String, String>)
    ensures
        text_result(r) == jwt_hs256(claims@, secret@),
        signs_account_claims(claims@, r),
{
    let raw = match serde_json::value::RawValue::from_string(claims.to_string()) {
        Ok(raw) => raw,
        Err(e) => return Err(e.to_string()),
    };
    let key = jsonwebtoken::EncodingKey::from_secret(secret.as_bytes());
    match jsonwebtoken::encode(&jsonwebtoken::Header::default(), &raw, &key) {
        Ok(t) => Ok(t),
        Err(e) => Err(e.to_string()),
    }
}

/// The token for a user, issued at the given instant.
pub fn issue_token(user_id: &str, email: &str, is_admin: bool, now: Timestamp) -> (t: String)
    requires
        now.secs + TOKEN_LIFETIME_SECS <= i64::MAX,
    ensures
        token_for(user_id@, email@, is_admin, now.secs as int) == Ok::<Seq<char>, Seq<char>>(t@),
{
    let exp = now.secs + TOKEN_LIFETIME_SECS;
    let claims = token_claims_json(user_id, email, is_admin, exp);
    assert(claims_json(user_id@, email@, is_admin, exp as int) == claims@);
    match sign_claims(claims.as_str(), JWT_SECRET) {
        Ok(t) => t,
        Err(_) => {
            assert(false);
            String::new()
        },
    }
}

/// The token for a user, issued now: signed claims that name the user, the
/// e-mail address and the administrator flag, expiring seven days after the
/// clock's reading (a second since the epoch).
pub fn generate_token(user_id: &str, email: &str, is_admin: bool) -> (t: String)
    ensures
        exists|issued: int|
            0 <= issued && #[trigger] token_for(user_id@, email@, is_admin, issued) == Ok::<Seq<char>, Seq<char>>(t@),
{
    let now = now_utc();
    issue_token(user_id, email, is_admin, now)
}

} // verus!
