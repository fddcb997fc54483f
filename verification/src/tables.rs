//! What the service's stored tables hold and what its queries read from
//! them, as mathematical sequences of rows: the meaning that the statements
//! the service sends give to the results the library decides on.

use vstd::prelude::*;
use crate::ids::uuid_reading;
use crate::records::{CertificateRow, Course, CourseRow, EnrollmentRow, Failure, UserRow};
use crate::text::uuid_hyphenated;

verus! {

/// How many stored accounts use the e-mail address or the username: what
/// `SELECT COUNT(*) FROM users WHERE email = $1 OR username = $2` counts.
pub open spec fn accounts_using(table: Seq<UserRow>, email: Seq<char>, username: Seq<char>) -> nat
    decreases table.len(),
{
    if table.len() == 0 {
        0
    } else {
        accounts_using(table.drop_last(), email, username) + (if table.last().email@ == email
            || table.last().username@ == username {
            1nat
        } else {
            0nat
        })
    }
}

/// No two stored accounts share an e-mail address or a username.
pub open spec fn distinct_accounts(table: Seq<UserRow>) -> bool {
    forall|i: int, j: int|
        0 <= i < j < table.len() ==> #[trigger] table[i].email@ != #[trigger] table[j].email@
            && table[i].username@ != table[j].username@
}

/// No stored account uses the address or the name when none is counted.
pub proof fn lemma_no_account_using(table: Seq<UserRow>, email: Seq<char>, username: Seq<char>)
    requires
        accounts_using(table, email, username) == 0,
    ensures
        forall|i: int| 0 <= i < table.len() ==> #[trigger] table[i].email@ != email && table[i].username@ != username,
    decreases table.len(),
{
    if table.len() > 0 {
        lemma_no_account_using(table.drop_last(), email, username);
        assert forall|i: int| 0 <= i < table.len() implies #[trigger] table[i].email@ != email
            && table[i].username@ != username by {
            if i < table.len() - 1 {
                assert(table[i] == table.drop_last()[i]);
            }
        }
    }
}

/// How many certificates the account holds for the course: what
/// `SELECT COUNT(*) FROM certificates WHERE user_id = $1 AND course_id = $2`
/// counts, the course bound as its hyphenated text.
pub open spec fn certificates_held(table: Seq<CertificateRow>, user: Seq<char>, course: u128) -> nat
    decreases table.len(),
{
    if table.len() == 0 {
        0
    } else {
        certificates_held(table.drop_last(), user, course) + (if table.last().user_id@ == user
            && table.last().course_id@ == uuid_hyphenated(course) {
            1nat
        } else {
            0nat
        })
    }
}

/// No account holds two stored certificates for the same course.
pub open spec fn one_certificate_each(table: Seq<CertificateRow>) -> bool {
    forall|i: int, j: int|
        0 <= i < j < table.len() ==> !(#[trigger] table[i].user_id@ == #[trigger] table[j].user_id@
            && table[i].course_id@ == table[j].course_id@)
}

/// No stored certificate is held for the course when none is counted.
pub proof fn lemma_no_certificate_held(table: Seq<CertificateRow>, user: Seq<char>, course: u128)
    requires
        certificates_held(table, user, course) == 0,
    ensures
        forall|i: int|
            0 <= i < table.len() ==> !(#[trigger] table[i].user_id@ == user && table[i].course_id@
                == uuid_hyphenated(course)),
    decreases table.len(),
{
    if table.len() > 0 {
        lemma_no_certificate_held(table.drop_last(), user, course);
        assert forall|i: int| 0 <= i < table.len() implies !(#[trigger] table[i].user_id@ == user
            && table[i].course_id@ == uuid_hyphenated(course)) by {
            if i < table.len() - 1 {
                assert(table[i] == table.drop_last()[i]);
            }
        }
    }
}

/// The account is enrolled in the course: some stored enrolment has this
/// pair.
pub open spec fn enrolled(table: Seq<EnrollmentRow>, user: Seq<char>, course: Seq<char>) -> bool {
    exists|i: int| 0 <= i < table.len() && #[trigger] table[i].user_id@ == user && table[i].course_id@ == course
}

/// What `INSERT … ON CONFLICT(user_id, course_id) DO NOTHING` leaves: the
/// table unchanged where the pair is already enrolled, otherwise the table
/// with the new row.
pub open spec fn insert_enrollment(table: Seq<EnrollmentRow>, row: EnrollmentRow) -> Seq<EnrollmentRow> {
    if enrolled(table, row.user_id@, row.course_id@) {
        table
    } else {
        table.push(row)
    }
}

/// How many stored course rows hold an identifier that reads as `x`.
pub open spec fn course_rows_with_id(rows: Seq<CourseRow>, x: u128) -> nat
    decreases rows.len(),
{
    if rows.len() == 0 {
        0
    } else {
        course_rows_with_id(rows.drop_last(), x) + (if uuid_reading(rows.last().id@) == Ok::<u128, Seq<char>>(x) {
            1nat
        } else {
            0nat
        })
    }
}

/// How many courses of a list have identifier `x`.
pub open spec fn courses_with_id(courses: Seq<Course>, x: u128) -> nat
    decreases courses.len(),
{
    if courses.len() == 0 {
        0
    } else {
        courses_with_id(courses.drop_last(), x) + (if courses.last().id == x {
            1nat
        } else {
            0nat
        })
    }
}

/// How many stored accounts are administrators: what
/// `SELECT COUNT(*) FROM users WHERE is_admin = 1` counts.
pub open spec fn administrators(table: Seq<UserRow>) -> nat
    decreases table.len(),
{
    if table.len() == 0 {
        0
    } else {
        administrators(table.drop_last()) + (if table.last().is_admin == 1 {
            1nat
        } else {
            0nat
        })
    }
}

/// The accounts after the first start stored what it decided: the default
/// administrator's row added, or the table unchanged.
pub open spec fn after_start(table: Seq<UserRow>, r: Result<Option<UserRow>, Failure>) -> Seq<UserRow> {
    match r {
        Ok(Some(row)) => table.push(row),
        _ => table,
    }
}

/// No two stored enrolments pair the same account with the same course.
pub open spec fn one_enrollment_each(table: Seq<EnrollmentRow>) -> bool {
    forall|i: int, j: int|
        0 <= i < j < table.len() ==> !(#[trigger] table[i].user_id@ == #[trigger] table[j].user_id@
            && table[i].course_id@ == table[j].course_id@)
}

} // verus!
