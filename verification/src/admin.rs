//! What administrators do: create, change and remove courses, add lessons,
//! enrol accounts and list them.

use vstd::prelude::*;
use crate::catalog::{enrollment_for, enrollment_outcome, listing, listing_outcome, stored, stored_outcome};
use crate::clock::{format_rfc3339, now_utc, rfc3339_text};
use crate::ids::{is_v4, new_uuid_v4};
use crate::records::{
    respond, responds, Course, CourseRow, CreateCourseRequest, CreateLessonRequest, EnrollmentRow,
    Failure, Lesson, LessonRow, ManualEnrollmentRequest, User, UserListingRow, STATUS_CREATED,
    STATUS_INTERNAL_SERVER_ERROR, STATUS_NOT_FOUND, STATUS_OK,
};
use crate::text::{uuid_hyphenated, uuid_to_hyphenated};

verus! {

/// A course to create: the row to store and the record to answer with.
#[derive(Clone, Debug)]
pub struct NewCourse {
    pub row: CourseRow,
    pub course: Course,
}

/// The course `n` is created from the request: both hold the request's
/// fields, the course is published (the row stores 1), its identifier is a
/// fresh version-4 UUID, the row stores the
/// hyphenated text of the course's identifier and the RFC 3339 text of its
/// creation instant (no leap second).
pub open spec fn course_from_request(req: CreateCourseRequest, n: NewCourse) -> bool {
    &&& is_v4(n.course.id)
    &&& n.row.id@ == uuid_hyphenated(n.course.id)
    &&& n.row.title@ == req.title@ && n.course.title@ == req.title@
    &&& n.row.description@ == req.description@ && n.course.description@ == req.description@
    &&& n.row.content@ == req.content@ && n.course.content@ == req.content@
    &&& n.row.price == req.price && n.course.price == req.price
    &&& n.row.duration_hours == req.duration_hours && n.course.duration_hours == req.duration_hours
    &&& n.row.level@ == req.level@ && n.course.level@ == req.level@
    &&& n.row.image_url@ == req.image_url@ && n.course.image_url@ == req.image_url@
    &&& n.row.is_published == 1 && n.course.is_published
    &&& rfc3339_text(n.course.created_at.secs, n.course.created_at.nanos) == Some(n.row.created_at@)
    &&& n.course.created_at.nanos < 1_000_000_000
}

/// Prepares a new course from the request: a fresh identifier, the current
/// time, published.
pub fn create_course(req: &CreateCourseRequest) -> (n: NewCourse)
    ensures
        course_from_request(*req, n),
{
    let id = new_uuid_v4();
    let now = now_utc();
    let created_at = match format_rfc3339(now) {
        Some(s) => s,
        None => {
            assert(false);
            String::new()
        },
    };
    let row = CourseRow {
        id: uuid_to_hyphenated(id),
        title: req.title.clone(),
        description: req.description.clone(),
        content: req.content.clone(),
        price: req.price,
        duration_hours: req.duration_hours,
        level: req.level.clone(),
        image_url: req.image_url.clone(),
        is_published: 1,
        created_at,
    };
    let course = Course {
        id,
        title: req.title.clone(),
        description: req.description.clone(),
        content: req.content.clone(),
        price: req.price,
        duration_hours: req.duration_hours,
        level: req.level.clone(),
        image_url: req.image_url.clone(),
        is_published: true,
        created_at: now,
    };
    NewCourse { row, course }
}

/// Answers a course creation once stored: an internal error with the store's
/// message, or the course.
pub fn course_created(n: NewCourse, saved: Result<(), String>) -> (r: Result<Course, Failure>)
    ensures
        match saved {
            Err(e) => r matches Err(f) && responds(f, STATUS_INTERNAL_SERVER_ERROR, e@),
            Ok(_) => r == Ok::<Course, Failure>(n.course),
        },
{
    match saved {
        Err(e) => Err(respond(STATUS_INTERNAL_SERVER_ERROR, e)),
        Ok(_) => Ok(n.course),
    }
}

/// The answer to a change or removal of a course: a failed statement is "not
/// found"; otherwise 200 OK (also where no course had that identifier).
pub open spec fn course_change_outcome(outcome: Result<(), String>, r: Result<u16, Failure>) -> bool {
    match outcome {
        Err(_) => r matches Err(f) && responds(f, STATUS_NOT_FOUND, "Course not found"@),
        Ok(_) => r == Ok::<u16, Failure>(STATUS_OK),
    }
}

fn course_changed(outcome: Result<(), String>) -> (r: Result<u16, Failure>)
    ensures
        course_change_outcome(outcome, r),
{
    match outcome {
        Err(_) => Err(respond(STATUS_NOT_FOUND, "Course not found".to_string())),
        Ok(_) => Ok(STATUS_OK),
    }
}

/// Answers a change of a course once the update ran (or failed).
pub fn update_course(outcome: Result<(), String>) -> (r: Result<u16, Failure>)
    ensures
        course_change_outcome(outcome, r),
{
    course_changed(outcome)
}

/// Answers a removal of a course once the deletion ran (or failed).
pub fn delete_course(outcome: Result<(), String>) -> (r: Result<u16, Failure>)
    ensures
        course_change_outcome(outcome, r),
{
    course_changed(outcome)
}

/// A lesson to add: the row to store and the record to answer with.
#[derive(Clone, Debug)]
pub struct NewLesson {
    pub row: LessonRow,
    pub lesson: Lesson,
}

/// The lesson `n` is made from the request: both hold the request's fields
/// and the row stores the hyphenated texts of the identifiers; the lesson's
/// own identifier is a fresh version-4 UUID.
pub open spec fn lesson_from_request(req: CreateLessonRequest, n: NewLesson) -> bool {
    &&& is_v4(n.lesson.id)
    &&& n.row.id@ == uuid_hyphenated(n.lesson.id)
    &&& n.row.course_id@ == uuid_hyphenated(req.course_id) && n.lesson.course_id == req.course_id
    &&& n.row.title@ == req.title@ && n.lesson.title@ == req.title@
    &&& n.row.video_url@ == req.video_url@ && n.lesson.video_url@ == req.video_url@
    &&& n.row.content@ == req.content@ && n.lesson.content@ == req.content@
    &&& n.row.duration_minutes == req.duration_minutes && n.lesson.duration_minutes == req.duration_minutes
    &&& n.row.order_index == req.order_index && n.lesson.order_index == req.order_index
}

/// Prepares a new lesson from the request, under a fresh identifier.
pub fn add_lesson(req: &CreateLessonRequest) -> (n: NewLesson)
    ensures
        lesson_from_request(*req, n),
{
    let id = new_uuid_v4();
    let row = LessonRow {
        id: uuid_to_hyphenated(id),
        course_id: uuid_to_hyphenated(req.course_id),
        title: req.title.clone(),
        video_url: req.video_url.clone(),
        content: req.content.clone(),
        duration_minutes: req.duration_minutes,
        order_index: req.order_index,
    };
    let lesson = Lesson {
        id,
        course_id: req.course_id,
        title: req.title.clone(),
        video_url: req.video_url.clone(),
        content: req.content.clone(),
        duration_minutes: req.duration_minutes,
        order_index: req.order_index,
    };
    NewLesson { row, lesson }
}

/// Answers a new lesson once stored: an internal error with the store's
/// message, or the lesson.
pub fn lesson_added(n: NewLesson, saved: Result<(), String>) -> (r: Result<Lesson, Failure>)
    ensures
        match saved {
            Err(e) => r matches Err(f) && responds(f, STATUS_INTERNAL_SERVER_ERROR, e@),
            Ok(_) => r == Ok::<Lesson, Failure>(n.lesson),
        },
{
    match saved {
        Err(e) => Err(respond(STATUS_INTERNAL_SERVER_ERROR, e)),
        Ok(_) => Ok(n.lesson),
    }
}

/// An administrator's enrolment of an account: the enrolment to store.
pub fn manual_enroll(req: &ManualEnrollmentRequest, user: Result<String, String>) -> (r: Result<EnrollmentRow, Failure>)
    ensures
        enrollment_outcome(*req, user, r),
{
    enrollment_for(req, user)
}

/// Answers an administrator's enrolment once stored: 201 Created.
pub fn manual_enrollment_recorded(saved: Result<(), String>) -> (r: Result<u16, Failure>)
    ensures
        stored_outcome(saved, STATUS_CREATED, r),
{
    stored(saved, STATUS_CREATED)
}

/// The accounts, from the rows of the account listing.
pub fn list_users(rows: Result<Vec<UserListingRow>, String>) -> (r: Result<Vec<User>, Failure>)
    ensures
        listing_outcome::<User>(rows, r),
{
    listing::<User>(rows)
}

} // verus!
