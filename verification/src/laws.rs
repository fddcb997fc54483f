//! Properties of the service that span several of its operations.

use vstd::prelude::*;
use crate::auth::{answers_with, authenticate_outcome, login_outcome, registration_of, Registration};
use crate::password::bcrypt_verdict;
use crate::clock::four_digit_year;
use crate::admin::{course_from_request, NewCourse};
use crate::catalog::lookup_outcome;
use crate::certificates::certificate_code_text;
use crate::records::{Course, CreateCourseRequest};
use crate::rows::FromRow;
use crate::auth::{register_outcome, taken_message};
use crate::catalog::{enrollment_outcome, rows_read};
use crate::certificates::issue_outcome;
use crate::records::{responds, CertificateRow, CourseRow, EnrollmentRow, Lesson, LessonRow, ManualEnrollmentRequest};
use crate::setup::init_outcome;
use crate::admin::{lesson_from_request, NewLesson};
use crate::ids::uuid_reading;
use crate::tables::{
    administrators, after_start, one_enrollment_each,
    accounts_using, certificates_held, course_rows_with_id, courses_with_id, distinct_accounts, enrolled,
    insert_enrollment, lemma_no_account_using, lemma_no_certificate_held, one_certificate_each,
};
use crate::clock::Timestamp;
use crate::records::{Failure, LoginRequest, LoginResponse, RegisterRequest, User, UserRow};
use crate::setup::{default_admin_row, ADMIN_EMAIL, ADMIN_PASSWORD};
use crate::text::{lemma_uuid_simple_injective, uuid_simple};

verus! {

/// Two account records say the same: identifier, address, name, full name,
/// administrator flag and creation instant.
pub open spec fn same_account(a: User, b: User) -> bool {
    &&& a.id == b.id
    &&& a.email@ == b.email@
    &&& a.username@ == b.username@
    &&& a.full_name@ == b.full_name@
    &&& a.is_admin == b.is_admin
    &&& a.created_at == b.created_at
}

/// An account signs in with the password it was opened with: when the row
/// that registration stored is the one found at sign-in, and the password
/// given is the registered one, sign-in answers with the very account that
/// registration answered with (same identifier, address, names, flag and
/// creation instant) and a token for it; it is never refused. This holds for
/// accounts created in a year of four digits, the instants whose RFC 3339
/// text reads back unchanged.
pub proof fn registered_account_signs_in(
    req: RegisterRequest,
    reg: Registration,
    login_req: LoginRequest,
    answer: Result<LoginResponse, Failure>,
)
    requires
        registration_of(req, reg),
        four_digit_year(reg.user.created_at.secs),
        login_req.password@ == req.password@,
        login_outcome(login_req, Ok(reg.row), answer),
    ensures
        exists|u: User| same_account(u, reg.user) && #[trigger] answers_with(answer, u),
{
    let row = reg.row;
    let a = choose|a: Result<User, Failure>|
        #[trigger] crate::auth::authenticate_outcome(login_req, Ok::<_, String>(row), a) && match a {
            Err(f) => answer == Err::<LoginResponse, Failure>(f),
            Ok(u) => answers_with(answer, u),
        };
    let x = reg.user.id;
    let t = reg.user.created_at;
    assert(crate::text::uuid_hyphenated(x) == row.id@);
    assert(crate::clock::written_plain(row.created_at@, t));
    let u = a->Ok_0;
    assert(same_account(u, reg.user));
}

/// The default administrator signs in with the default password: when its
/// stored row is the one found at sign-in, sign-in answers with an
/// administrator account of that identifier, address and creation instant,
/// and a token for it. As for every account, this holds for instants in a
/// year of four digits.
pub proof fn default_admin_signs_in(
    row: UserRow,
    id: u128,
    created: Timestamp,
    login_req: LoginRequest,
    answer: Result<LoginResponse, Failure>,
)
    requires
        default_admin_row(row, id, created),
        four_digit_year(created.secs),
        login_req.password@ == ADMIN_PASSWORD@,
        login_outcome(login_req, Ok(row), answer),
    ensures
        exists|u: User|
            u.id == id && u.is_admin && u.email@ == ADMIN_EMAIL@ && u.created_at == created
                && #[trigger] answers_with(answer, u),
{
    let a = choose|a: Result<User, Failure>|
        #[trigger] crate::auth::authenticate_outcome(login_req, Ok::<_, String>(row), a) && match a {
            Err(f) => answer == Err::<LoginResponse, Failure>(f),
            Ok(u) => answers_with(answer, u),
        };
    assert(crate::text::uuid_hyphenated(id) == row.id@);
    assert(crate::clock::written_plain(row.created_at@, created));
    let u = a->Ok_0;
    assert(u.id == id && u.is_admin && u.email@ == ADMIN_EMAIL@ && u.created_at == created);
}

/// Certificate codes do not collide: two codes for dates of the same length
/// are equal only when the dates and the random identifiers are.
pub proof fn certificate_codes_differ(date1: Seq<char>, nonce1: u128, date2: Seq<char>, nonce2: u128)
    requires
        date1.len() == date2.len(),
        certificate_code_text(date1, nonce1) == certificate_code_text(date2, nonce2),
    ensures
        date1 == date2,
        nonce1 == nonce2,
{
    reveal_strlit("CERT-");
    reveal_strlit("-");
    let c = certificate_code_text(date1, nonce1);
    let n = date1.len() as int;
    assert(c.subrange(5, 5 + n) =~= date1);
    assert(certificate_code_text(date2, nonce2).subrange(5, 5 + n) =~= date2);
    assert(c.subrange(6 + n, 38 + n) =~= uuid_simple(nonce1));
    assert(certificate_code_text(date2, nonce2).subrange(6 + n, 38 + n) =~= uuid_simple(nonce2));
    lemma_uuid_simple_injective(nonce1, nonce2);
}

/// A created course is found as created: when the row that course creation
/// stored is the one the lookup finds, the lookup answers with the course
/// that creation answered with, published and holding the request's fields.
/// This holds for courses created in a year of four digits.
pub proof fn created_course_is_found(req: CreateCourseRequest, n: NewCourse, answer: Result<Course, Failure>)
    requires
        course_from_request(req, n),
        four_digit_year(n.course.created_at.secs),
        lookup_outcome::<Course>(Ok(n.row), "Course not found"@, answer),
    ensures
        answer matches Ok(c) && Course::same_record(&c, &n.course) && c.is_published && c.title@ == req.title@,
{
    assert(Course::written_from(&n.course, &n.row));
}

/// A refused sign-in does not tell whether the address is known: an address
/// with no account and a known address with a wrong password are answered
/// alike, 401 with the same message.
pub proof fn refusals_look_alike(
    req: LoginRequest,
    missing: String,
    row: UserRow,
    unknown: Result<User, Failure>,
    wrong: Result<User, Failure>,
)
    requires
        authenticate_outcome(req, Err(missing), unknown),
        authenticate_outcome(req, Ok(row), wrong),
        bcrypt_verdict(req.password@, row.password_hash@) == Ok::<bool, Seq<char>>(false),
    ensures
        unknown matches Err(Failure::Respond(e1)) && wrong matches Err(Failure::Respond(e2)) && e1.status == 401
            && e2.status == 401 && e1.message@ == e2.message@,
{
}

/// Registration keeps addresses and names unique: when the stored accounts
/// share no address and no name, and registration is given the count that
/// its query reads from them, a taken address or name is refused, and an
/// accepted account added to the table keeps them unique. (Registrations run
/// one after another; the table's UNIQUE columns guard concurrent ones.)
pub proof fn registration_keeps_accounts_distinct(
    table: Seq<UserRow>,
    req: RegisterRequest,
    r: Result<Registration, Failure>,
)
    requires
        distinct_accounts(table),
        accounts_using(table, req.email@, req.username@) <= i64::MAX,
        register_outcome(req, Ok::<i64, String>(accounts_using(table, req.email@, req.username@) as i64), r),
    ensures
        accounts_using(table, req.email@, req.username@) > 0 ==> (r matches Err(f) && responds(f, 400, taken_message())),
        r matches Ok(reg) ==> distinct_accounts(table.push(reg.row)),
{
    if r is Ok {
        let t = table.push(r->Ok_0.row);
        lemma_no_account_using(table, req.email@, req.username@);
        assert forall|i: int, j: int| 0 <= i < j < t.len() implies #[trigger] t[i].email@ != #[trigger] t[j].email@
            && t[i].username@ != t[j].username@ by {
            if j < table.len() {
                assert(t[i] == table[i] && t[j] == table[j]);
            } else {
                assert(t[i] == table[i]);
            }
        }
    }
}

/// A certificate is issued once per account and course: when no account
/// holds two certificates for one course, and issuing is given the count its
/// query reads, a certificate already held is refused, and an issued one
/// added to the table is the only one the account holds for the course.
/// (Requests run one after another.)
pub proof fn certificate_issued_once(
    table: Seq<CertificateRow>,
    user: Seq<char>,
    course: u128,
    r: Result<crate::certificates::NewCertificate, Failure>,
)
    requires
        one_certificate_each(table),
        certificates_held(table, user, course) <= i64::MAX,
        issue_outcome(user, course, Ok::<i64, String>(certificates_held(table, user, course) as i64), r),
    ensures
        certificates_held(table, user, course) > 0 ==> (r matches Err(f) && responds(f, 400, "Certificate already issued"@)),
        r matches Ok(c) ==> one_certificate_each(table.push(c.row)) && certificates_held(table.push(c.row), user, course) == 1,
{
    if r is Ok {
        let row = r->Ok_0.row;
        let t = table.push(row);
        lemma_no_certificate_held(table, user, course);
        assert forall|i: int, j: int| 0 <= i < j < t.len() implies !(#[trigger] t[i].user_id@ == #[trigger] t[j].user_id@
            && t[i].course_id@ == t[j].course_id@) by {
            if j < table.len() {
                assert(t[i] == table[i] && t[j] == table[j]);
            } else {
                assert(t[i] == table[i]);
            }
        }
        assert(t.drop_last() =~= table);
    }
}

/// Enrolling is idempotent: an enrolment stored as its conflict-ignoring
/// insert stores it leaves the account enrolled in the course; an account
/// already enrolled keeps its enrolment unchanged; and enrolling the same
/// account in the same course again leaves the table as it was.
pub proof fn enrollment_is_idempotent(
    table: Seq<EnrollmentRow>,
    req: ManualEnrollmentRequest,
    user: String,
    first: EnrollmentRow,
    second: EnrollmentRow,
)
    requires
        enrollment_outcome(req, Ok(user), Ok(first)),
        enrollment_outcome(req, Ok(user), Ok(second)),
    ensures
        enrolled(insert_enrollment(table, first), user@, crate::text::uuid_hyphenated(req.course_id)),
        enrolled(table, user@, crate::text::uuid_hyphenated(req.course_id)) ==> insert_enrollment(table, first) == table,
        insert_enrollment(insert_enrollment(table, first), second) == insert_enrollment(table, first),
{
    let t1 = insert_enrollment(table, first);
    if !enrolled(table, first.user_id@, first.course_id@) {
        assert(t1[table.len() as int] == first);
    }
    assert(enrolled(t1, second.user_id@, second.course_id@));
}

/// Lessons come back in the order their query reads them: when the stored
/// rows come in lesson order (`ORDER BY order_index`), so do the lessons,
/// each at the place of its row.
pub proof fn lessons_keep_their_order(rows: Seq<LessonRow>, r: Result<Vec<Lesson>, Failure>)
    requires
        rows_read::<Lesson>(rows, r),
        r is Ok,
        forall|i: int, j: int| 0 <= i <= j < rows.len() ==> #[trigger] rows[i].order_index <= #[trigger] rows[j].order_index,
    ensures
        r->Ok_0@.len() == rows.len(),
        forall|i: int| 0 <= i < rows.len() ==> Lesson::reads(&#[trigger] r->Ok_0@[i], &rows[i]),
        forall|i: int, j: int|
            0 <= i <= j < rows.len() ==> #[trigger] r->Ok_0@[i].order_index <= #[trigger] r->Ok_0@[j].order_index,
{
    let v = r->Ok_0@;
    assert forall|i: int, j: int| 0 <= i <= j < rows.len() implies #[trigger] v[i].order_index <= #[trigger] v[j].order_index by {
        assert(Lesson::reads(&v[i], &rows[i]));
        assert(Lesson::reads(&v[j], &rows[j]));
        assert(rows[i].order_index <= rows[j].order_index);
    }
}

/// A course is listed as often as it is stored: in a listing, the number of
/// courses with an identifier equals the number of rows whose identifier
/// reads as it, so a course stored once is listed exactly once.
pub proof fn courses_listed_as_stored(rows: Seq<CourseRow>, r: Result<Vec<Course>, Failure>, x: u128)
    requires
        rows_read::<Course>(rows, r),
        r is Ok,
    ensures
        courses_with_id(r->Ok_0@, x) == course_rows_with_id(rows, x),
{
    lemma_counts_agree(rows, r->Ok_0@, x);
}

proof fn lemma_counts_agree(rows: Seq<CourseRow>, v: Seq<Course>, x: u128)
    requires
        v.len() == rows.len(),
        forall|i: int| 0 <= i < rows.len() ==> Course::reads(&#[trigger] v[i], &rows[i]),
    ensures
        courses_with_id(v, x) == course_rows_with_id(rows, x),
    decreases rows.len(),
{
    if rows.len() > 0 {
        let n = rows.len() - 1;
        assert forall|i: int| 0 <= i < n implies Course::reads(&#[trigger] v.drop_last()[i], &rows.drop_last()[i]) by {
            assert(v.drop_last()[i] == v[i]);
            assert(rows.drop_last()[i] == rows[i]);
            assert(Course::reads(&v[i], &rows[i]));
        }
        lemma_counts_agree(rows.drop_last(), v.drop_last(), x);
        assert(Course::reads(&v[n], &rows[n]));
    }
}

/// The first start leaves at least one administrator and adds at most one:
/// given the number of administrators its query counts, after it stores
/// what it decided the table holds max(1, that number) of them; where one
/// exists already it stores nothing, so starting again changes nothing.
pub proof fn start_keeps_one_administrator(table: Seq<UserRow>, r: Result<Option<UserRow>, Failure>)
    requires
        administrators(table) <= i64::MAX,
        init_outcome(administrators(table) as i64, r),
        r is Ok,
    ensures
        administrators(after_start(table, r)) == if administrators(table) == 0 {
            1
        } else {
            administrators(table)
        },
        administrators(table) > 0 ==> after_start(table, r) == table,
{
    if administrators(table) == 0 {
        let row = r->Ok_0->Some_0;
        let t = table.push(row);
        let (id, created) = choose|id: u128, created: Timestamp| #[trigger] crate::setup::default_admin_row(row, id, created);
        assert(t.drop_last() =~= table);
        assert(t.last() == row);
    }
}

/// A lesson that was added is listed once and in place: when its stored row
/// is among the rows the lesson query reads (in lesson order) and no other
/// row has its identifier, the listing holds the added lesson at that row's
/// place and nowhere else, with the lessons before it no later in order and
/// those after it no earlier.
pub proof fn added_lesson_listed_once(
    req: crate::records::CreateLessonRequest,
    n: NewLesson,
    rows: Seq<LessonRow>,
    k: int,
    r: Result<Vec<Lesson>, Failure>,
)
    requires
        lesson_from_request(req, n),
        rows_read::<Lesson>(rows, r),
        r is Ok,
        0 <= k < rows.len(),
        rows[k] == n.row,
        forall|i: int| 0 <= i < rows.len() && i != k ==> uuid_reading(#[trigger] rows[i].id@) != Ok::<u128, Seq<char>>(n.lesson.id),
        forall|i: int, j: int| 0 <= i <= j < rows.len() ==> #[trigger] rows[i].order_index <= #[trigger] rows[j].order_index,
    ensures
        Lesson::same_record(&r->Ok_0@[k], &n.lesson),
        forall|i: int| 0 <= i < rows.len() && i != k ==> #[trigger] r->Ok_0@[i].id != n.lesson.id,
        forall|i: int| 0 <= i < k ==> #[trigger] r->Ok_0@[i].order_index <= n.lesson.order_index,
        forall|i: int| k < i < rows.len() ==> #[trigger] r->Ok_0@[i].order_index >= n.lesson.order_index,
{
    let v = r->Ok_0@;
    assert(Lesson::written_from(&n.lesson, &rows[k]));
    assert(Lesson::same_record(&v[k], &n.lesson));
    assert forall|i: int| 0 <= i < rows.len() && i != k implies #[trigger] v[i].id != n.lesson.id by {
        assert(Lesson::reads(&v[i], &rows[i]));
    }
    assert forall|i: int| 0 <= i < k implies #[trigger] v[i].order_index <= n.lesson.order_index by {
        assert(Lesson::reads(&v[i], &rows[i]));
        assert(rows[i].order_index <= rows[k].order_index);
    }
    assert forall|i: int| k < i < rows.len() implies #[trigger] v[i].order_index >= n.lesson.order_index by {
        assert(Lesson::reads(&v[i], &rows[i]));
        assert(rows[k].order_index <= rows[i].order_index);
    }
}

/// Enrolments stay one per account and course: storing an enrolment as the
/// conflict-ignoring insert does keeps every pair at most once, and leaves
/// exactly one enrolment of the new row's account in its course.
pub proof fn enrollments_stay_unique(table: Seq<EnrollmentRow>, row: EnrollmentRow)
    requires
        one_enrollment_each(table),
    ensures
        one_enrollment_each(insert_enrollment(table, row)),
        exists|k: int|
            0 <= k < insert_enrollment(table, row).len() && #[trigger] insert_enrollment(table, row)[k].user_id@
                == row.user_id@ && insert_enrollment(table, row)[k].course_id@ == row.course_id@ && forall|i: int|
                0 <= i < insert_enrollment(table, row).len() && i != k ==> !(#[trigger] insert_enrollment(table, row)[i].user_id@
                    == row.user_id@ && insert_enrollment(table, row)[i].course_id@ == row.course_id@),
{
    let t = insert_enrollment(table, row);
    if enrolled(table, row.user_id@, row.course_id@) {
        let k = choose|k: int| 0 <= k < table.len() && #[trigger] table[k].user_id@ == row.user_id@ && table[k].course_id@ == row.course_id@;
        assert forall|i: int| 0 <= i < t.len() && i != k implies !(#[trigger] t[i].user_id@ == row.user_id@
            && t[i].course_id@ == row.course_id@) by {
            if i < k {
                assert(!(table[i].user_id@ == table[k].user_id@ && table[i].course_id@ == table[k].course_id@));
            } else {
                assert(!(table[k].user_id@ == table[i].user_id@ && table[k].course_id@ == table[i].course_id@));
            }
        }
        assert(t[k].user_id@ == row.user_id@);
    } else {
        let k = table.len() as int;
        assert(t[k] == row);
        assert forall|i: int, j: int| 0 <= i < j < t.len() implies !(#[trigger] t[i].user_id@ == #[trigger] t[j].user_id@
            && t[i].course_id@ == t[j].course_id@) by {
            if j < table.len() {
                assert(t[i] == table[i] && t[j] == table[j]);
            } else {
                assert(t[i] == table[i]);
                if table[i].user_id@ == row.user_id@ && table[i].course_id@ == row.course_id@ {
                    assert(enrolled(table, row.user_id@, row.course_id@));
                }
            }
        }
        assert forall|i: int| 0 <= i < t.len() && i != k implies !(#[trigger] t[i].user_id@ == row.user_id@
            && t[i].course_id@ == row.course_id@) by {
            assert(t[i] == table[i]);
            if table[i].user_id@ == row.user_id@ && table[i].course_id@ == row.course_id@ {
                assert(enrolled(table, row.user_id@, row.course_id@));
            }
        }
        assert(t[k].user_id@ == row.user_id@);
    }
}

} // verus!
