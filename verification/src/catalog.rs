//! The catalogue as students see it: courses, lessons, enrolment, articles
//! and comments.

use vstd::prelude::*;
use crate::clock::{format_rfc3339, now_utc, rfc3339_text, Timestamp};
use crate::ids::{is_v4, new_uuid_v4};
use crate::records::{
    aborts, respond, responds, Article, ArticleRow, CommentRow, Course, CourseRow, EnrollmentRow,
    Failure, Lesson, LessonRow, ManualEnrollmentRequest, STATUS_CREATED, STATUS_INTERNAL_SERVER_ERROR,
    STATUS_NOT_FOUND, STATUS_OK,
};
use crate::rows::{all_same, all_written, from_rows, rows_problem, FromRow};
use crate::text::{uuid_hyphenated, uuid_to_hyphenated};

verus! {

/// The records that stored rows read as: every row read in order, or the
/// request abandoned at the first row that cannot be read. Rows written from
/// records read back as those records, each at its row's place.
pub open spec fn rows_read<T: FromRow>(rows: Seq<T::Row>, r: Result<Vec<T>, Failure>) -> bool {
    &&& match rows_problem::<T>(rows) {
        Some(e) => r matches Err(f) && aborts(f, e),
        None => r matches Ok(v) && {
            &&& v@.len() == rows.len()
            &&& forall|i: int| 0 <= i < rows.len() ==> T::reads(&#[trigger] v@[i], &rows[i])
        },
    }
    &&& forall|recs: Seq<T>| #[trigger] all_written::<T>(recs, rows) ==> (r is Ok && all_same::<T>(r->Ok_0@, recs))
    &&& forall|i: int, rec: T|
        0 <= i < rows.len() && #[trigger] T::written_from(&rec, &rows[i]) && r is Ok ==> T::same_record(&r->Ok_0@[i], &rec)
}

/// The answer to a listing: a failed query is an internal error with its
/// message; otherwise the records its rows read as.
pub open spec fn listing_outcome<T: FromRow>(rows: Result<Vec<T::Row>, String>, r: Result<Vec<T>, Failure>) -> bool {
    match rows {
        Err(e) => r matches Err(f) && responds(f, STATUS_INTERNAL_SERVER_ERROR, e@),
        Ok(rs) => rows_read::<T>(rs@, r),
    }
}

/// Answers a listing from the rows its query returned.
pub fn listing<T: FromRow>(rows: Result<Vec<T::Row>, String>) -> (r: Result<Vec<T>, Failure>)
    ensures
        listing_outcome::<T>(rows, r),
{
    match rows {
        Err(e) => Err(respond(STATUS_INTERNAL_SERVER_ERROR, e)),
        Ok(rs) => match from_rows::<T>(&rs) {
            Ok(v) => Ok(v),
            Err(e) => Err(Failure::Abort(e)),
        },
    }
}

/// The answer to a lookup of one record: no row found is "not found" with the
/// given message; otherwise the record the row reads as, and a row written
/// from a record reads back as that record.
pub open spec fn lookup_outcome<T: FromRow>(
    row: Result<T::Row, String>,
    missing: Seq<char>,
    r: Result<T, Failure>,
) -> bool {
    &&& match row {
        Err(_) => r matches Err(f) && responds(f, STATUS_NOT_FOUND, missing),
        Ok(w) => match T::row_problem(&w) {
            Some(e) => r matches Err(f) && aborts(f, e),
            None => r matches Ok(v) && T::reads(&v, &w),
        },
    }
    &&& forall|rec: T| row is Ok && #[trigger] T::written_from(&rec, &row->Ok_0) ==> (r is Ok && T::same_record(&r->Ok_0, &rec))
}

fn lookup<T: FromRow>(row: Result<T::Row, String>, missing: &str) -> (r: Result<T, Failure>)
    ensures
        lookup_outcome::<T>(row, missing@, r),
{
    match row {
        Err(_) => Err(respond(STATUS_NOT_FOUND, missing.to_string())),
        Ok(w) => match T::from_row(&w) {
            Ok(v) => Ok(v),
            Err(e) => Err(Failure::Abort(e)),
        },
    }
}

/// The published courses, from the rows of the published-course query.
pub fn list_courses(rows: Result<Vec<CourseRow>, String>) -> (r: Result<Vec<Course>, Failure>)
    ensures
        listing_outcome::<Course>(rows, r),
{
    listing::<Course>(rows)
}

/// One published course, from the row found for its identifier.
pub fn get_course(row: Result<CourseRow, String>) -> (r: Result<Course, Failure>)
    ensures
        lookup_outcome::<Course>(row, "Course not found"@, r),
{
    lookup::<Course>(row, "Course not found")
}

/// The lessons of a course, from the rows of the lesson query (in lesson
/// order).
pub fn get_course_lessons(rows: Result<Vec<LessonRow>, String>) -> (r: Result<Vec<Lesson>, Failure>)
    ensures
        listing_outcome::<Lesson>(rows, r),
{
    listing::<Lesson>(rows)
}

/// The courses with an active enrolment, from the rows of their query.
pub fn get_my_courses(rows: Result<Vec<CourseRow>, String>) -> (r: Result<Vec<Course>, Failure>)
    ensures
        listing_outcome::<Course>(rows, r),
{
    listing::<Course>(rows)
}

/// The articles, newest first, from the rows of their query.
pub fn list_articles(rows: Result<Vec<ArticleRow>, String>) -> (r: Result<Vec<Article>, Failure>)
    ensures
        listing_outcome::<Article>(rows, r),
{
    listing::<Article>(rows)
}

/// One article, from the row found for its identifier (after its view count
/// was raised).
pub fn get_article(row: Result<ArticleRow, String>) -> (r: Result<Article, Failure>)
    ensures
        lookup_outcome::<Article>(row, "Article not found"@, r),
{
    lookup::<Article>(row, "Article not found")
}

/// `row` records a new enrolment of account `user_id` in course
/// `course_id` under a fresh version-4 identifier, at an instant that its text is the
/// RFC 3339 form of.
pub open spec fn new_enrollment(row: EnrollmentRow, user_id: Seq<char>, course_id: u128) -> bool {
    &&& exists|x: u128| #[trigger] uuid_hyphenated(x) == row.id@ && is_v4(x)
    &&& row.user_id@ == user_id
    &&& row.course_id@ == uuid_hyphenated(course_id)
    &&& exists|t: Timestamp| #[trigger] rfc3339_text(t.secs, t.nanos) == Some(row.enrolled_at@)
}

/// The enrolment to store for a request, given the account found for the
/// request's e-mail address: no account is "User not found".
pub open spec fn enrollment_outcome(
    req: ManualEnrollmentRequest,
    user: Result<String, String>,
    r: Result<EnrollmentRow, Failure>,
) -> bool {
    match user {
        Err(_) => r matches Err(f) && responds(f, STATUS_NOT_FOUND, "User not found"@),
        Ok(u) => r matches Ok(row) && new_enrollment(row, u@, req.course_id),
    }
}

/// Prepares an enrolment: a fresh identifier and the current time.
pub fn enrollment_for(req: &ManualEnrollmentRequest, user: Result<String, String>) -> (r: Result<EnrollmentRow, Failure>)
    ensures
        enrollment_outcome(*req, user, r),
{
    let user_id = match user {
        Ok(u) => u,
        Err(_) => return Err(respond(STATUS_NOT_FOUND, "User not found".to_string())),
    };
    let id = new_uuid_v4();
    let now = now_utc();
    let enrolled_at = match format_rfc3339(now) {
        Some(s) => s,
        None => {
            assert(false);
            return Err(respond(STATUS_INTERNAL_SERVER_ERROR, String::new()));
        },
    };
    let row = EnrollmentRow {
        id: uuid_to_hyphenated(id),
        user_id,
        course_id: uuid_to_hyphenated(req.course_id),
        enrolled_at,
    };
    assert(uuid_hyphenated(id) == row.id@);
    assert(rfc3339_text(now.secs, now.nanos) == Some(row.enrolled_at@));
    Ok(row)
}

/// A student's enrolment request: the enrolment to store (an existing one is
/// kept as it is).
pub fn enroll_manual(req: &ManualEnrollmentRequest, user: Result<String, String>) -> (r: Result<EnrollmentRow, Failure>)
    ensures
        enrollment_outcome(*req, user, r),
{
    enrollment_for(req, user)
}

/// The answer once a change was stored (or could not be): an internal error
/// with the store's message, or the given success status.
pub open spec fn stored_outcome(saved: Result<(), String>, success: u16, r: Result<u16, Failure>) -> bool {
    match saved {
        Err(e) => r matches Err(f) && responds(f, STATUS_INTERNAL_SERVER_ERROR, e@),
        Ok(_) => r == Ok::<u16, Failure>(success),
    }
}

/// Answers with `success` once a change was stored.
pub fn stored(saved: Result<(), String>, success: u16) -> (r: Result<u16, Failure>)
    ensures
        stored_outcome(saved, success, r),
{
    match saved {
        Err(e) => Err(respond(STATUS_INTERNAL_SERVER_ERROR, e)),
        Ok(_) => Ok(success),
    }
}

/// Answers a student's enrolment once stored: 200 OK.
pub fn enrollment_recorded(saved: Result<(), String>) -> (r: Result<u16, Failure>)
    ensures
        stored_outcome(saved, STATUS_OK, r),
{
    stored(saved, STATUS_OK)
}

/// The account the service acts for (the first stored account), or an
/// internal error where it could not be read.
pub fn acting_user(user: Result<String, String>) -> (r: Result<String, Failure>)
    ensures
        match user {
            Err(e) => r matches Err(f) && responds(f, STATUS_INTERNAL_SERVER_ERROR, e@),
            Ok(u) => r matches Ok(v) && v@ == u@,
        },
{
    match user {
        Err(e) => Err(respond(STATUS_INTERNAL_SERVER_ERROR, e)),
        Ok(u) => Ok(u),
    }
}

/// The comment to store: a fresh version-4 identifier, the article, the acting
/// account, the text and the current time.
pub fn add_comment(article_id: u128, user_id: &str, content: String) -> (row: CommentRow)
    ensures
        exists|x: u128| #[trigger] uuid_hyphenated(x) == row.id@ && is_v4(x),
        row.article_id@ == uuid_hyphenated(article_id),
        row.user_id@ == user_id@,
        row.content@ == content@,
        exists|t: Timestamp| #[trigger] rfc3339_text(t.secs, t.nanos) == Some(row.created_at@),
{
    let id = new_uuid_v4();
    let now = now_utc();
    let created_at = match format_rfc3339(now) {
        Some(s) => s,
        None => {
            assert(false);
            String::new()
        },
    };
    let row = CommentRow {
        id: uuid_to_hyphenated(id),
        article_id: uuid_to_hyphenated(article_id),
        user_id: user_id.to_string(),
        content,
        created_at,
    };
    assert(uuid_hyphenated(id) == row.id@);
    assert(rfc3339_text(now.secs, now.nanos) == Some(row.created_at@));
    row
}

/// Answers a comment once stored: 201 Created.
pub fn comment_recorded(saved: Result<(), String>) -> (r: Result<u16, Failure>)
    ensures
        stored_outcome(saved, STATUS_CREATED, r),
{
    stored(saved, STATUS_CREATED)
}

} // verus!
