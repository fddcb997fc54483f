//! The records the service stores and answers with, the requests it takes,
//! and how a request fails.

use vstd::prelude::*;
use crate::clock::Timestamp;

verus! {

/// An account as the service answers with it.
#[derive(Clone, Debug)]
pub struct User {
    pub id: u128,
    pub email: String,
    pub username: String,
    pub full_name: String,
    pub is_admin: bool,
    pub created_at: Timestamp,
}

/// A course of the catalogue.
#[derive(Clone, Debug)]
pub struct Course {
    pub id: u128,
    pub title: String,
    pub description: String,
    pub content: String,
    pub price: i64,
    pub duration_hours: i32,
    pub level: String,
    pub image_url: String,
    pub is_published: bool,
    pub created_at: Timestamp,
}

/// A lesson of a course.
#[derive(Clone, Debug)]
pub struct Lesson {
    pub id: u128,
    pub course_id: u128,
    pub title: String,
    pub video_url: String,
    pub content: String,
    pub duration_minutes: i32,
    pub order_index: i32,
}

/// An article.
#[derive(Clone, Debug)]
pub struct Article {
    pub id: u128,
    pub title: String,
    pub content: String,
    pub author_id: u128,
    pub views: i32,
    pub created_at: Timestamp,
}

/// A certificate of completion of a course.
#[derive(Clone, Debug)]
pub struct Certificate {
    pub id: u128,
    pub user_id: u128,
    pub course_id: u128,
    pub issued_at: Timestamp,
    pub certificate_code: String,
}

/// A request to open an account.
#[derive(Clone, Debug)]
pub struct RegisterRequest {
    pub email: String,
    pub username: String,
    pub full_name: String,
    pub password: String,
}

/// A request to sign in.
#[derive(Clone, Debug)]
pub struct LoginRequest {
    pub email: String,
    pub password: String,
}

/// The answer to a successful sign-in or registration.
#[derive(Clone, Debug)]
pub struct LoginResponse {
    pub token: String,
    pub user: User,
}

/// A request to create or change a course.
#[derive(Clone, Debug)]
pub struct CreateCourseRequest {
    pub title: String,
    pub description: String,
    pub content: String,
    pub price: i64,
    pub duration_hours: i32,
    pub level: String,
    pub image_url: String,
}

/// A request to add a lesson to a course.
#[derive(Clone, Debug)]
pub struct CreateLessonRequest {
    pub course_id: u128,
    pub title: String,
    pub video_url: String,
    pub content: String,
    pub duration_minutes: i32,
    pub order_index: i32,
}

/// A request to enrol the account with the given e-mail address in a course.
#[derive(Clone, Debug)]
pub struct ManualEnrollmentRequest {
    pub user_email: String,
    pub course_id: u128,
}

/// An account as the `users` table stores it: identifiers and instants as
/// text, the administrator flag as an integer.
#[derive(Clone, Debug)]
pub struct UserRow {
    pub id: String,
    pub email: String,
    pub username: String,
    pub full_name: String,
    pub password_hash: String,
    pub is_admin: i64,
    pub created_at: String,
}

/// An account as the administrators' listing reads it, without the hash.
#[derive(Clone, Debug)]
pub struct UserListingRow {
    pub id: String,
    pub email: String,
    pub username: String,
    pub full_name: String,
    pub is_admin: i64,
    pub created_at: String,
}

/// A course as the `courses` table stores it.
#[derive(Clone, Debug)]
pub struct CourseRow {
    pub id: String,
    pub title: String,
    pub description: String,
    pub content: String,
    pub price: i64,
    pub duration_hours: i32,
    pub level: String,
    pub image_url: String,
    pub is_published: i64,
    pub created_at: String,
}

/// A lesson as the `lessons` table stores it.
#[derive(Clone, Debug)]
pub struct LessonRow {
    pub id: String,
    pub course_id: String,
    pub title: String,
    pub video_url: String,
    pub content: String,
    pub duration_minutes: i32,
    pub order_index: i32,
}

/// An article as the `articles` table stores it.
#[derive(Clone, Debug)]
pub struct ArticleRow {
    pub id: String,
    pub title: String,
    pub content: String,
    pub author_id: String,
    pub views: i32,
    pub created_at: String,
}

/// A certificate as the `certificates` table stores it.
#[derive(Clone, Debug)]
pub struct CertificateRow {
    pub id: String,
    pub user_id: String,
    pub course_id: String,
    pub issued_at: String,
    pub certificate_code: String,
}

/// An enrolment to insert into the `enrollments` table (active on insert).
#[derive(Clone, Debug)]
pub struct EnrollmentRow {
    pub id: String,
    pub user_id: String,
    pub course_id: String,
    pub enrolled_at: String,
}

/// A comment to insert into the `comments` table.
#[derive(Clone, Debug)]
pub struct CommentRow {
    pub id: String,
    pub article_id: String,
    pub user_id: String,
    pub content: String,
    pub created_at: String,
}

/// An HTTP status and message that a request is answered with when it fails.
#[derive(Clone, Debug)]
pub struct ApiError {
    pub status: u16,
    pub message: String,
}

/// Why a request did not succeed.
#[derive(Clone, Debug)]
pub enum Failure {
    /// The request is answered with an error status and message.
    Respond(ApiError),
    /// The request is abandoned without an answer (the service gives up on
    /// data it cannot read, as an `unwrap` does); the text says why.
    Abort(String),
}

/// 200 OK.
pub const STATUS_OK: u16 = 200;

/// 201 Created.
pub const STATUS_CREATED: u16 = 201;

/// 400 Bad Request.
pub const STATUS_BAD_REQUEST: u16 = 400;

/// 401 Unauthorized.
pub const STATUS_UNAUTHORIZED: u16 = 401;

/// 404 Not Found.
pub const STATUS_NOT_FOUND: u16 = 404;

/// 500 Internal Server Error.
pub const STATUS_INTERNAL_SERVER_ERROR: u16 = 500;

/// The failure answered with `status` and `message`.
pub open spec fn responds(f: Failure, status: u16, message: Seq<char>) -> bool {
    f matches Failure::Respond(e) && e.status == status && e.message@ == message
}

/// The failure that abandons the request, for the reason `message`.
pub open spec fn aborts(f: Failure, message: Seq<char>) -> bool {
    f matches Failure::Abort(m) && m@ == message
}

/// Answers with `status` and `message`.
pub fn respond(status: u16, message: String) -> (f: Failure)
    ensures
        responds(f, status, message@),
{
    Failure::Respond(ApiError { status, message })
}

/// An integer column read as a flag: set exactly when it holds 1.
pub open spec fn flag(v: i64) -> bool {
    v == 1
}

} // verus!
