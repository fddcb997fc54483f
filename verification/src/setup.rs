//! First start of the service: the default administrator account, created
//! when no administrator exists.

use vstd::prelude::*;
use crate::clock::{format_rfc3339, now_utc, rfc3339_text, Timestamp};
use crate::ids::{is_v4, new_uuid_v4};
use crate::password::{bcrypt_verdict, hash_password, hashed_with_cost, PASSWORD_HASH_COST};
use crate::records::{aborts, Failure, UserRow};
use crate::text::{uuid_hyphenated, uuid_to_hyphenated};

verus! {

/// The default administrator's e-mail address.
pub const ADMIN_EMAIL: &'static str = "admin@edu.com";

/// The default administrator's username.
pub const ADMIN_USERNAME: &'static str = "admin";

/// The default administrator's full name.
pub const ADMIN_FULL_NAME: &'static str = "Admin User";

/// The default administrator's password.
pub const ADMIN_PASSWORD: &'static str = "admin123";

/// `row` is the default administrator's account: its address, names and
/// flag, the hyphenated text of the fresh version-4 identifier `id`, and the
/// RFC 3339 text of instant `created` (no leap second).
pub open spec fn admin_account_row(row: UserRow, id: u128, created: Timestamp) -> bool {
    &&& is_v4(id)
    &&& row.id@ == uuid_hyphenated(id)
    &&& row.email@ == ADMIN_EMAIL@
    &&& row.username@ == ADMIN_USERNAME@
    &&& row.full_name@ == ADMIN_FULL_NAME@
    &&& row.is_admin == 1
    &&& rfc3339_text(created.secs, created.nanos) == Some(row.created_at@)
    &&& created.nanos < 1_000_000_000
}

/// `row` is the default administrator: its account, with a bcrypt hash of
/// work factor 12 that the default password verifies against.
pub open spec fn default_admin_row(row: UserRow, id: u128, created: Timestamp) -> bool {
    &&& admin_account_row(row, id, created)
    &&& hashed_with_cost(row.password_hash@, PASSWORD_HASH_COST as int)
    &&& bcrypt_verdict(ADMIN_PASSWORD@, row.password_hash@) == Ok::<bool, Seq<char>>(true)
}

/// What `admin_row_for` answers for the outcome of hashing the default
/// password: the default administrator's account storing that hash, or the
/// start abandoned with the hashing error's message.
pub open spec fn admin_row_outcome(hashed: Result<String, String>, r: Result<UserRow, Failure>) -> bool {
    match hashed {
        Ok(h) => r matches Ok(row) && row.password_hash@ == h@ && exists|id: u128, created: Timestamp|
            #[trigger] admin_account_row(row, id, created),
        Err(e) => r matches Err(f) && aborts(f, e@),
    }
}

/// Makes the default administrator's row from the outcome of hashing its
/// password: a fresh identifier, created now.
pub fn admin_row_for(hashed: Result<String, String>) -> (r: Result<UserRow, Failure>)
    ensures
        admin_row_outcome(hashed, r),
{
    let hashed = match hashed {
        Ok(h) => h,
        Err(e) => return Err(Failure::Abort(e)),
    };
    let id = new_uuid_v4();
    let now = now_utc();
    let created_at = match format_rfc3339(now) {
        Some(s) => s,
        None => {
            assert(false);
            String::new()
        },
    };
    let row = UserRow {
        id: uuid_to_hyphenated(id),
        email: ADMIN_EMAIL.to_string(),
        username: ADMIN_USERNAME.to_string(),
        full_name: ADMIN_FULL_NAME.to_string(),
        password_hash: hashed,
        is_admin: 1,
        created_at,
    };
    let r = Ok::<UserRow, Failure>(row);
    assert(admin_account_row(r->Ok_0, id, now));
    r
}

/// What the first start stores beside the tables, given the outcome of
/// hashing the default password: the default administrator's row with that
/// hash, or the start abandoned with the hashing error's message.
pub open spec fn admin_start_outcome(hashed: Result<String, String>, r: Result<Option<UserRow>, Failure>) -> bool {
    match hashed {
        Ok(h) => r matches Ok(Some(row)) && row.password_hash@ == h@ && exists|id: u128, created: Timestamp|
            #[trigger] admin_account_row(row, id, created),
        Err(e) => r matches Err(f) && aborts(f, e@),
    }
}

/// What `init_database` answers for the number of administrators: nothing
/// to store where there is one; otherwise what `admin_start_outcome` gives
/// for some outcome of hashing the default password (a hash of work factor
/// 12 that the password verifies against, or an error). A row it stores is
/// the default administrator.
pub open spec fn init_outcome(admins: i64, r: Result<Option<UserRow>, Failure>) -> bool {
    &&& admins != 0 ==> (r matches Ok(None))
    &&& admins == 0 ==> exists|hashed: Result<String, String>|
        #[trigger] admin_start_outcome(hashed, r) && match hashed {
            Ok(h) => hashed_with_cost(h@, PASSWORD_HASH_COST as int) && bcrypt_verdict(ADMIN_PASSWORD@, h@)
                == Ok::<bool, Seq<char>>(true),
            Err(_) => true,
        }
    &&& (r is Ok && r->Ok_0 is Some) ==> exists|id: u128, created: Timestamp|
        #[trigger] default_admin_row(r->Ok_0->Some_0, id, created)
}

/// What the first start stores beside the tables, given how many
/// administrator accounts exist: where there is none, the default
/// administrator's row, its password hashed with work factor 12 (the start
/// is abandoned with the hashing error's message where that fails);
/// otherwise nothing.
pub fn init_database(admins: i64) -> (r: Result<Option<UserRow>, Failure>)
    ensures
        init_outcome(admins, r),
{
    if admins != 0 {
        return Ok(None);
    }
    let hashed = hash_password(ADMIN_PASSWORD, PASSWORD_HASH_COST);
    let ghost h = hashed;
    match admin_row_for(hashed) {
        Ok(row) => {
            let ghost (id, created) = choose|id: u128, created: Timestamp| #[trigger] admin_account_row(row, id, created);
            let r = Ok::<Option<UserRow>, Failure>(Some(row));
            assert(admin_account_row(r->Ok_0->Some_0, id, created));
            assert(default_admin_row(r->Ok_0->Some_0, id, created));
            assert(admin_start_outcome(h, r));
            r
        },
        Err(f) => {
            let r = Err::<Option<UserRow>, Failure>(f);
            assert(admin_start_outcome(h, r));
            r
        },
    }
}

} // verus!
