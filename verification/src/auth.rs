//! Opening an account and signing in.

use vstd::prelude::*;
use crate::clock::{format_rfc3339, now_utc, rfc3339_reading, rfc3339_text, written_plain, Timestamp};
use crate::ids::{is_v4, new_uuid_v4, parse_uuid, uuid_reading};
use crate::password::{bcrypt_verdict, hash_password, hashed_with_cost, verify_password, PASSWORD_HASH_COST};
use crate::records::{
    respond, responds, Failure, LoginRequest, LoginResponse, RegisterRequest, User,
    UserRow, STATUS_BAD_REQUEST, STATUS_INTERNAL_SERVER_ERROR, STATUS_UNAUTHORIZED,
};
use crate::text::{uuid_hyphenated, uuid_to_hyphenated};
use crate::token::{generate_token, token_for};

verus! {

/// The message of a registration refused because the address or the name is
/// taken.
pub open spec fn taken_message() -> Seq<char> {
    "Email or username already exists"@
}

/// The message of a refused sign-in.
pub open spec fn invalid_credentials_message() -> Seq<char> {
    "Invalid credentials"@
}

/// A new account: the row to store and the record to answer with.
#[derive(Clone, Debug)]
pub struct Registration {
    pub row: UserRow,
    pub user: User,
}

/// The account `reg` is made for the request from a stored hash: its row
/// and its record hold the request's address, name and full name, it is no
/// administrator, its identifier is a fresh version-4 UUID whose hyphenated
/// text the row stores, and the row stores the RFC 3339 text of its creation
/// instant (no leap second).
pub open spec fn account_of(req: RegisterRequest, reg: Registration) -> bool {
    &&& is_v4(reg.user.id)
    &&& reg.row.id@ == uuid_hyphenated(reg.user.id)
    &&& reg.row.email@ == req.email@ && reg.user.email@ == req.email@
    &&& reg.row.username@ == req.username@ && reg.user.username@ == req.username@
    &&& reg.row.full_name@ == req.full_name@ && reg.user.full_name@ == req.full_name@
    &&& reg.row.is_admin == 0 && !reg.user.is_admin
    &&& rfc3339_text(reg.user.created_at.secs, reg.user.created_at.nanos) == Some(reg.row.created_at@)
    &&& reg.user.created_at.nanos < 1_000_000_000
}

/// `h` is what hashing `password` for an account gives: a bcrypt hash of
/// work factor 12 that the password verifies against.
pub open spec fn password_hash_of(password: Seq<char>, h: Seq<char>) -> bool {
    &&& bcrypt_verdict(password, h) == Ok::<bool, Seq<char>>(true)
    &&& hashed_with_cost(h, PASSWORD_HASH_COST as int)
}

/// The account `reg` is opened for the request: made for it, with a hash
/// of the request's password.
pub open spec fn registration_of(req: RegisterRequest, reg: Registration) -> bool {
    &&& account_of(req, reg)
    &&& password_hash_of(req.password@, reg.row.password_hash@)
}

/// What `account_for` answers for the outcome of hashing: an account made
/// for the request that stores that hash, or an internal error with the
/// hashing error's message.
pub open spec fn account_outcome(req: RegisterRequest, hashed: Result<String, String>, r: Result<Registration, Failure>) -> bool {
    match hashed {
        Ok(h) => r matches Ok(reg) && account_of(req, reg) && reg.row.password_hash@ == h@,
        Err(e) => r matches Err(f) && responds(f, STATUS_INTERNAL_SERVER_ERROR, e@),
    }
}

/// Makes the account for a request from the outcome of hashing its
/// password: a fresh random identifier and the current time.
pub fn account_for(req: &RegisterRequest, hashed: Result<String, String>) -> (r: Result<Registration, Failure>)
    ensures
        account_outcome(*req, hashed, r),
{
    let hashed = match hashed {
        Ok(h) => h,
        Err(e) => return Err(respond(STATUS_INTERNAL_SERVER_ERROR, e)),
    };
    let id = new_uuid_v4();
    let now = now_utc();
    let created_at = match format_rfc3339(now) {
        Some(s) => s,
        None => {
            assert(false);
            String::new()
        },
    };
    let row = UserRow {
        id: uuid_to_hyphenated(id),
        email: req.email.clone(),
        username: req.username.clone(),
        full_name: req.full_name.clone(),
        password_hash: hashed,
        is_admin: 0,
        created_at,
    };
    let user = User {
        id,
        email: req.email.clone(),
        username: req.username.clone(),
        full_name: req.full_name.clone(),
        is_admin: false,
        created_at: now,
    };
    Ok(Registration { row, user })
}

/// What `register` answers: a failed count is an internal error with its
/// message; an address or name already in use (a count above zero) is a bad
/// request; otherwise the password is hashed with work factor 12 and
/// `account_for` answers for that outcome: a new account holding the hash,
/// or an internal error with the hashing error's message.
pub open spec fn register_outcome(
    req: RegisterRequest,
    existing: Result<i64, String>,
    r: Result<Registration, Failure>,
) -> bool {
    match existing {
        Err(e) => r matches Err(f) && responds(f, STATUS_INTERNAL_SERVER_ERROR, e@),
        Ok(n) => if n > 0 {
            r matches Err(f) && responds(f, STATUS_BAD_REQUEST, taken_message())
        } else {
            exists|hashed: Result<String, String>|
                #[trigger] account_outcome(req, hashed, r) && match hashed {
                    Ok(h) => password_hash_of(req.password@, h@),
                    Err(_) => true,
                }
        },
    }
}

/// Decides on a registration, given how many accounts already use the
/// request's e-mail address or username (or why that could not be counted),
/// and prepares the new account: the password's bcrypt hash, a random
/// identifier and the current time. An account it opens is a registration
/// of the request.
pub fn register(req: &RegisterRequest, existing: Result<i64, String>) -> (r: Result<Registration, Failure>)
    ensures
        register_outcome(*req, existing, r),
        r matches Ok(reg) ==> registration_of(*req, reg),
{
    let n = match existing {
        Ok(n) => n,
        Err(e) => return Err(respond(STATUS_INTERNAL_SERVER_ERROR, e)),
    };
    if n > 0 {
        return Err(respond(STATUS_BAD_REQUEST, "Email or username already exists".to_string()));
    }
    let hashed = hash_password(req.password.as_str(), PASSWORD_HASH_COST);
    let ghost h = hashed;
    let r = account_for(req, hashed);
    assert(account_outcome(*req, h, r));
    r
}

/// The answer for `user` with the token issued at second `issued`: the
/// account and that token.
pub open spec fn token_answer(r: Result<LoginResponse, Failure>, user: User, issued: int) -> bool {
    r matches Ok(resp) && resp.user == user && token_for(uuid_hyphenated(user.id), user.email@, user.is_admin, issued)
        == Ok::<Seq<char>, Seq<char>>(resp.token@)
}

/// The answer for `user` with a token issued at some second since the epoch.
pub open spec fn answers_with(r: Result<LoginResponse, Failure>, user: User) -> bool {
    exists|issued: int| 0 <= issued && #[trigger] token_answer(r, user, issued)
}

fn answer_with_token(user: User) -> (r: Result<LoginResponse, Failure>)
    ensures
        answers_with(r, user),
{
    let id_text = uuid_to_hyphenated(user.id);
    let t = generate_token(id_text.as_str(), user.email.as_str(), user.is_admin);
    let ghost issued = choose|issued: int|
        0 <= issued && #[trigger] token_for(id_text@, user.email@, user.is_admin, issued) == Ok::<Seq<char>, Seq<char>>(t@);
    let r = Ok(LoginResponse { token: t, user });
    assert(token_answer(r, user, issued));
    r
}

/// Answers a registration once its row was stored (or could not be): an
/// internal error with the store's message, or the new account with a token
/// for it.
pub fn registered(reg: Registration, saved: Result<(), String>) -> (r: Result<LoginResponse, Failure>)
    ensures
        match saved {
            Err(e) => r matches Err(f) && responds(f, STATUS_INTERNAL_SERVER_ERROR, e@),
            Ok(_) => answers_with(r, reg.user),
        },
{
    if let Err(e) = saved {
        return Err(respond(STATUS_INTERNAL_SERVER_ERROR, e));
    }
    answer_with_token(reg.user)
}

/// How a stored account answers a password: the password's bcrypt verdict
/// against the stored hash (an error is an internal error, a mismatch is
/// unauthorized), then the identifier and the creation instant read back
/// (an error is an internal error).
pub open spec fn login_verdict(password: Seq<char>, row: UserRow) -> Result<(u128, Timestamp), (u16, Seq<char>)> {
    match bcrypt_verdict(password, row.password_hash@) {
        Err(e) => Err((STATUS_INTERNAL_SERVER_ERROR, e)),
        Ok(false) => Err((STATUS_UNAUTHORIZED, invalid_credentials_message())),
        Ok(true) => match uuid_reading(row.id@) {
            Err(e) => Err((STATUS_INTERNAL_SERVER_ERROR, e)),
            Ok(id) => match rfc3339_reading(row.created_at@) {
                Err(e) => Err((STATUS_INTERNAL_SERVER_ERROR, e)),
                Ok(t) => Ok((id, Timestamp { secs: t.0, nanos: t.1 })),
            },
        },
    }
}

/// The account record that a stored row reads as, with the given identifier
/// and creation instant.
pub open spec fn user_of_row(u: User, row: UserRow, id: u128, created_at: Timestamp) -> bool {
    &&& u.id == id
    &&& u.email@ == row.email@
    &&& u.username@ == row.username@
    &&& u.full_name@ == row.full_name@
    &&& u.is_admin == (row.is_admin == 1)
    &&& u.created_at == created_at
}

/// What signing in answers, given the stored account found for the
/// request's e-mail address (or why none was found): no account is
/// unauthorized; otherwise as `login_verdict` decides. Beyond the names: a
/// row that stores the hyphenated text of an identifier and the RFC 3339
/// text of a plain instant reads back as exactly those.
pub open spec fn authenticate_outcome(req: LoginRequest, row: Result<UserRow, String>, r: Result<User, Failure>) -> bool {
    &&& match row {
        Err(_) => r matches Err(f) && responds(f, STATUS_UNAUTHORIZED, invalid_credentials_message()),
        Ok(w) => match login_verdict(req.password@, w) {
            Ok((id, t)) => r matches Ok(u) && user_of_row(u, w, id, t),
            Err((status, msg)) => r matches Err(f) && responds(f, status, msg),
        },
    }
    &&& forall|x: u128, t: Timestamp|
        (row is Ok && bcrypt_verdict(req.password@, row->Ok_0.password_hash@) == Ok::<bool, Seq<char>>(true)
            && #[trigger] uuid_hyphenated(x) == row->Ok_0.id@ && #[trigger] written_plain(row->Ok_0.created_at@, t))
            ==> (r is Ok && r->Ok_0.id == x && r->Ok_0.created_at == t)
}

/// Checks a password against the stored account found for the request's
/// e-mail address and reads the account back.
pub fn authenticate(req: &LoginRequest, row: Result<UserRow, String>) -> (r: Result<User, Failure>)
    ensures
        authenticate_outcome(*req, row, r),
{
    let w = match row {
        Ok(w) => w,
        Err(_) => return Err(respond(STATUS_UNAUTHORIZED, "Invalid credentials".to_string())),
    };
    let valid = match verify_password(req.password.as_str(), w.password_hash.as_str()) {
        Ok(v) => v,
        Err(e) => return Err(respond(STATUS_INTERNAL_SERVER_ERROR, e)),
    };
    if !valid {
        return Err(respond(STATUS_UNAUTHORIZED, "Invalid credentials".to_string()));
    }
    let id = match parse_uuid(w.id.as_str()) {
        Ok(id) => id,
        Err(e) => return Err(respond(STATUS_INTERNAL_SERVER_ERROR, e)),
    };
    let created_at = match crate::clock::parse_rfc3339(w.created_at.as_str()) {
        Ok(t) => t,
        Err(e) => return Err(respond(STATUS_INTERNAL_SERVER_ERROR, e)),
    };
    Ok(
        User {
            id,
            email: w.email,
            username: w.username,
            full_name: w.full_name,
            is_admin: w.is_admin == 1,
            created_at,
        },
    )
}

/// What `login` answers: what `authenticate` decides, and on success the
/// account with a token for it.
pub open spec fn login_outcome(req: LoginRequest, row: Result<UserRow, String>, r: Result<LoginResponse, Failure>) -> bool {
    exists|a: Result<User, Failure>|
        #[trigger] authenticate_outcome(req, row, a) && match a {
            Err(f) => r == Err::<LoginResponse, Failure>(f),
            Ok(u) => answers_with(r, u),
        }
}

/// Signs in: checks the password against the stored account found for the
/// request's e-mail address and answers with the account and a token.
pub fn login(req: &LoginRequest, row: Result<UserRow, String>) -> (r: Result<LoginResponse, Failure>)
    ensures
        login_outcome(*req, row, r),
{
    let user = match authenticate(req, row) {
        Ok(u) => u,
        Err(f) => return Err(f),
    };
    answer_with_token(user)
}

} // verus!
