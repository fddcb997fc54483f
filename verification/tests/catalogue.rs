use edu_academy::admin::{
    add_lesson, course_created, create_course, delete_course, lesson_added, list_users,
    manual_enroll, manual_enrollment_recorded, update_course,
};
use edu_academy::catalog::{
    acting_user, add_comment, comment_recorded, enroll_manual, enrollment_recorded, get_article,
    get_course, get_course_lessons, get_my_courses, list_articles, list_courses,
};
use edu_academy::certificates::{certificate_code, certificate_issued, get_my_certificates, issue_certificate};
use edu_academy::clock::{format_compact_date, Timestamp};
use edu_academy::ids::parse_uuid;
use edu_academy::records::{
    ArticleRow, CertificateRow, CourseRow, CreateCourseRequest, CreateLessonRequest, Failure,
    LessonRow, ManualEnrollmentRequest, UserListingRow,
};
use edu_academy::text::uuid_to_hyphenated;

const ID1: &str = "550e8400-e29b-41d4-a716-446655440000";
const ID2: &str = "a1a2a3a4-b1b2-c1c2-d1d2-d3d4d5d6d7d8";
const T1: &str = "2015-05-15T00:00:00+00:00";

fn status_of(f: &Failure) -> (u16, String) {
    match f {
        Failure::Respond(e) => (e.status, e.message.clone()),
        Failure::Abort(m) => (0, m.clone()),
    }
}

fn course_row(id: &str, published: i64) -> CourseRow {
    CourseRow {
        id: id.to_string(),
        title: "Rust".to_string(),
        description: "Systems".to_string(),
        content: "All of it".to_string(),
        price: 4900,
        duration_hours: 12,
        level: "beginner".to_string(),
        image_url: "/rust.png".to_string(),
        is_published: published,
        created_at: T1.to_string(),
    }
}

#[test]
fn courses_listed_in_order() {
    let courses = list_courses(Ok(vec![course_row(ID1, 1), course_row(ID2, 0)])).unwrap();
    assert_eq!(courses.len(), 2);
    assert_eq!(courses[0].id, 0x550e8400e29b41d4a716446655440000);
    assert_eq!(courses[1].id, 0xa1a2a3a4b1b2c1c2d1d2d3d4d5d6d7d8);
    assert!(courses[0].is_published);
    assert!(!courses[1].is_published);
    assert_eq!(courses[0].price, 4900);
    assert_eq!(courses[0].title, "Rust");
    assert_eq!(courses[0].created_at, Timestamp { secs: 1431648000, nanos: 0 });
    assert_eq!(get_my_courses(Ok(vec![])).unwrap().len(), 0);
}

#[test]
fn unreadable_course_abandons_listing() {
    let r = list_courses(Ok(vec![course_row(ID1, 1), course_row("bad", 1), course_row("worse", 1)]));
    let (status, msg) = status_of(&r.err().unwrap());
    assert_eq!(status, 0);
    assert_eq!(msg, parse_uuid("bad").unwrap_err());
    let mut late = course_row(ID1, 1);
    late.created_at = "later".to_string();
    assert_eq!(status_of(&get_my_courses(Ok(vec![late])).err().unwrap()).0, 0);
}

#[test]
fn failed_listing_query_is_internal_error() {
    assert_eq!(status_of(&list_courses(Err("disk I/O error".to_string())).err().unwrap()), (500, "disk I/O error".to_string()));
    assert_eq!(status_of(&list_articles(Err("e".to_string())).err().unwrap()), (500, "e".to_string()));
}

#[test]
fn course_lookup() {
    let c = get_course(Ok(course_row(ID1, 1))).unwrap();
    assert_eq!(c.level, "beginner");
    assert_eq!(status_of(&get_course(Err("no rows".to_string())).err().unwrap()), (404, "Course not found".to_string()));
}

#[test]
fn lessons_and_articles_read() {
    let lessons = get_course_lessons(Ok(vec![LessonRow {
        id: ID2.to_string(),
        course_id: ID1.to_string(),
        title: "Intro".to_string(),
        video_url: "v".to_string(),
        content: "c".to_string(),
        duration_minutes: 15,
        order_index: 1,
    }]))
    .unwrap();
    assert_eq!(lessons[0].course_id, 0x550e8400e29b41d4a716446655440000);
    assert_eq!(lessons[0].order_index, 1);
    let row = ArticleRow {
        id: ID1.to_string(),
        title: "News".to_string(),
        content: "text".to_string(),
        author_id: ID2.to_string(),
        views: 3,
        created_at: T1.to_string(),
    };
    let a = get_article(Ok(row.clone())).unwrap();
    assert_eq!(a.views, 3);
    assert_eq!(a.author_id, 0xa1a2a3a4b1b2c1c2d1d2d3d4d5d6d7d8);
    assert_eq!(list_articles(Ok(vec![row])).unwrap().len(), 1);
    assert_eq!(status_of(&get_article(Err("none".to_string())).err().unwrap()), (404, "Article not found".to_string()));
}

#[test]
fn users_listed() {
    let users = list_users(Ok(vec![UserListingRow {
        id: ID1.to_string(),
        email: "a@b.c".to_string(),
        username: "a".to_string(),
        full_name: "A".to_string(),
        is_admin: 1,
        created_at: T1.to_string(),
    }]))
    .unwrap();
    assert!(users[0].is_admin);
    assert_eq!(users[0].email, "a@b.c");
}

fn course_request() -> CreateCourseRequest {
    CreateCourseRequest {
        title: "Verus".to_string(),
        description: "Proofs".to_string(),
        content: "Lots".to_string(),
        price: 0,
        duration_hours: 3,
        level: "advanced".to_string(),
        image_url: "/v.png".to_string(),
    }
}

#[test]
fn created_course_is_published_and_found() {
    let n = create_course(&course_request());
    assert_eq!(n.row.is_published, 1);
    assert!(n.course.is_published);
    assert_eq!(uuid::Uuid::from_u128(n.course.id).get_version_num(), 4);
    assert_eq!(n.row.id, uuid_to_hyphenated(n.course.id));
    let found = get_course(Ok(n.row.clone())).unwrap();
    assert_eq!(found.id, n.course.id);
    assert_eq!(found.created_at, n.course.created_at);
    assert_eq!(found.title, "Verus");
    let c = course_created(n.clone(), Ok(())).unwrap();
    assert_eq!(c.duration_hours, 3);
    assert_eq!(status_of(&course_created(n, Err("full".to_string())).err().unwrap()), (500, "full".to_string()));
}

#[test]
fn course_change_statuses() {
    assert_eq!(update_course(Ok(())).unwrap(), 200);
    assert_eq!(delete_course(Ok(())).unwrap(), 200);
    assert_eq!(status_of(&update_course(Err("x".to_string())).err().unwrap()), (404, "Course not found".to_string()));
    assert_eq!(status_of(&delete_course(Err("x".to_string())).err().unwrap()), (404, "Course not found".to_string()));
}

#[test]
fn lesson_added_from_request() {
    let req = CreateLessonRequest {
        course_id: 7,
        title: "One".to_string(),
        video_url: "u".to_string(),
        content: "c".to_string(),
        duration_minutes: 10,
        order_index: 2,
    };
    let n = add_lesson(&req);
    assert_eq!(n.row.course_id, "00000000-0000-0000-0000-000000000007");
    assert_eq!(n.lesson.order_index, 2);
    assert_eq!(lesson_added(n.clone(), Ok(())).unwrap().title, "One");
    assert_eq!(status_of(&lesson_added(n, Err("e".to_string())).err().unwrap()).0, 500);
}

#[test]
fn enrolments() {
    let req = ManualEnrollmentRequest { user_email: "a@b.c".to_string(), course_id: 1 };
    assert_eq!(status_of(&enroll_manual(&req, Err("no rows".to_string())).err().unwrap()), (404, "User not found".to_string()));
    assert_eq!(status_of(&manual_enroll(&req, Err("no rows".to_string())).err().unwrap()), (404, "User not found".to_string()));
    let row = enroll_manual(&req, Ok(ID1.to_string())).unwrap();
    assert_eq!(row.user_id, ID1);
    assert_eq!(row.course_id, "00000000-0000-0000-0000-000000000001");
    assert!(parse_uuid(&row.id).is_ok());
    assert!(edu_academy::clock::parse_rfc3339(&row.enrolled_at).is_ok());
    assert_eq!(enrollment_recorded(Ok(())).unwrap(), 200);
    assert_eq!(manual_enrollment_recorded(Ok(())).unwrap(), 201);
    assert_eq!(status_of(&enrollment_recorded(Err("x".to_string())).err().unwrap()), (500, "x".to_string()));
}

#[test]
fn comments() {
    assert_eq!(status_of(&acting_user(Err("none".to_string())).err().unwrap()), (500, "none".to_string()));
    let user = acting_user(Ok(ID2.to_string())).unwrap();
    let row = add_comment(0x550e8400e29b41d4a716446655440000, &user, "Nice".to_string());
    assert_eq!(row.article_id, ID1);
    assert_eq!(row.user_id, ID2);
    assert_eq!(row.content, "Nice");
    assert_eq!(comment_recorded(Ok(())).unwrap(), 201);
}

#[test]
fn certificate_code_format() {
    assert_eq!(
        certificate_code("20240102", 0xa1a2a3a4b1b2c1c2d1d2d3d4d5d6d7d8),
        "CERT-20240102-a1a2a3a4b1b2c1c2d1d2d3d4d5d6d7d8"
    );
}

#[test]
fn certificate_issued_once() {
    assert_eq!(status_of(&issue_certificate(ID1, 9, Ok(1)).err().unwrap()), (400, "Certificate already issued".to_string()));
    assert_eq!(status_of(&issue_certificate(ID1, 9, Err("e".to_string())).err().unwrap()), (500, "e".to_string()));
    let c = issue_certificate(ID1, 9, Ok(0)).unwrap();
    let date = format_compact_date(c.issued_at).unwrap();
    assert!(c.row.certificate_code.starts_with(&format!("CERT-{}-", date)));
    assert_eq!(c.row.certificate_code.len(), 46);
    assert!(c.row.certificate_code[5..13].chars().all(|ch| ch.is_ascii_digit()));
    assert!(c.row.certificate_code[14..].chars().all(|ch| ch.is_ascii_hexdigit() && !ch.is_ascii_uppercase()));
    assert_eq!(uuid::Uuid::from_u128(c.id).get_version_num(), 4);
    assert_eq!(c.row.user_id, ID1);
    assert_eq!(c.row.course_id, "00000000-0000-0000-0000-000000000009");
    let other = issue_certificate(ID1, 9, Ok(0)).unwrap();
    assert_ne!(other.row.certificate_code, c.row.certificate_code);
    let cert = certificate_issued(c.clone(), Ok(())).unwrap();
    assert_eq!(cert.user_id, 0x550e8400e29b41d4a716446655440000);
    assert_eq!(cert.course_id, 9);
    assert_eq!(cert.issued_at, c.issued_at);
    assert_eq!(status_of(&certificate_issued(c, Err("e".to_string())).err().unwrap()), (500, "e".to_string()));
    let bad = issue_certificate("someone", 9, Ok(0)).unwrap();
    assert_eq!(status_of(&certificate_issued(bad, Ok(())).err().unwrap()).0, 0);
}

#[test]
fn certificates_listed() {
    let certs = get_my_certificates(Ok(vec![CertificateRow {
        id: ID1.to_string(),
        user_id: ID2.to_string(),
        course_id: ID1.to_string(),
        issued_at: T1.to_string(),
        certificate_code: "CERT-20150515-x".to_string(),
    }]))
    .unwrap();
    assert_eq!(certs[0].certificate_code, "CERT-20150515-x");
    assert_eq!(certs[0].issued_at.secs, 1431648000);
}

#[test]
fn certificate_codes_differ_by_identifier() {
    assert_ne!(certificate_code("20240102", 1), certificate_code("20240102", 2));
    assert_ne!(certificate_code("20240102", 1), certificate_code("20240103", 1));
}

#[test]
fn added_lesson_is_listed_once_in_order() {
    let req = CreateLessonRequest {
        course_id: 3,
        title: "Middle".to_string(),
        video_url: "v".to_string(),
        content: "c".to_string(),
        duration_minutes: 5,
        order_index: 2,
    };
    let n = add_lesson(&req);
    let other = |id: &str, order: i32| LessonRow {
        id: id.to_string(),
        course_id: "00000000-0000-0000-0000-000000000003".to_string(),
        title: "Other".to_string(),
        video_url: "v".to_string(),
        content: "c".to_string(),
        duration_minutes: 1,
        order_index: order,
    };
    let lessons = get_course_lessons(Ok(vec![other(ID1, 0), n.row.clone(), other(ID2, 5)])).unwrap();
    assert_eq!(lessons.len(), 3);
    assert_eq!(lessons[1].id, n.lesson.id);
    assert_eq!(lessons[1].title, "Middle");
    assert_eq!(lessons.iter().filter(|l| l.id == n.lesson.id).count(), 1);
    assert!(lessons[0].order_index <= 2 && lessons[2].order_index >= 2);
}
