//! The browser client: what it shows of courses, accounts and articles, the
//! addresses it calls, and how it reads the service's replies.

use vstd::prelude::*;
use vstd::string::*;
use crate::text::{decimal_int, json_string, push_decimal_i64, push_json_string};

verus! {

/// A course as the client shows it.
#[derive(Clone, Debug)]
pub struct Course {
    pub id: i32,
    pub title: String,
    pub description: String,
}

/// An account as the client shows it.
#[derive(Clone, Debug)]
pub struct User {
    pub id: i32,
    pub username: String,
    pub fullname: String,
    pub email: String,
}

/// An article as the client shows it.
#[derive(Clone, Debug)]
pub struct Article {
    pub id: i32,
    pub title: String,
    pub summary: String,
}

/// Where the client finds the service.
pub const API_BASE: &'static str = "http://localhost:8080/api";

/// The address of a path of the service.
pub open spec fn endpoint(path: Seq<char>) -> Seq<char> {
    API_BASE@ + path
}

/// The address of the service's path `path`.
pub fn endpoint_url(path: &str) -> (url: String)
    ensures
        url@ == endpoint(path@),
{
    let mut url = String::new();
    url.append(API_BASE);
    url.append(path);
    url
}

/// The address that enrols in course `course_id`: `/courses/<id>/enroll`.
pub fn enroll_url(course_id: i32) -> (url: String)
    ensures
        url@ == endpoint("/courses/"@ + decimal_int(course_id as int) + "/enroll"@),
{
    let mut url = String::new();
    url.append(API_BASE);
    url.append("/courses/");
    push_decimal_i64(&mut url, course_id as i64);
    url.append("/enroll");
    url
}

/// The `Authorization` header value that carries a token.
pub fn bearer(token: &str) -> (h: String)
    ensures
        h@ == "Bearer "@ + token@,
{
    let mut h = String::new();
    h.append("Bearer ");
    h.append(token);
    h
}

/// A list reply: the list read from the body when the status is a success,
/// otherwise the given failure message.
pub open spec fn list_reply_outcome<T>(
    status_ok: bool,
    body: Result<Vec<T>, String>,
    failure: Seq<char>,
    r: Result<Vec<T>, String>,
) -> bool {
    if status_ok {
        r == body
    } else {
        r matches Err(e) && e@ == failure
    }
}

/// The courses of the catalogue, from the reply (the body is read only on
/// success).
pub fn fetch_courses(status_ok: bool, body: Result<Vec<Course>, String>) -> (r: Result<Vec<Course>, String>)
    ensures
        list_reply_outcome(status_ok, body, "Failed to load courses"@, r),
{
    if status_ok {
        body
    } else {
        Err("Failed to load courses".to_string())
    }
}

/// The articles, from the reply (the body is read only on success).
pub fn fetch_articles(status_ok: bool, body: Result<Vec<Article>, String>) -> (r: Result<Vec<Article>, String>)
    ensures
        list_reply_outcome(status_ok, body, "Failed to load articles"@, r),
{
    if status_ok {
        body
    } else {
        Err("Failed to load articles".to_string())
    }
}

/// The signed-in account's courses, from the reply: none when the status is
/// no success (the body is read only on success).
pub fn fetch_my_courses(status_ok: bool, body: Result<Vec<Course>, String>) -> (r: Result<Vec<Course>, String>)
    ensures
        if status_ok {
            r == body
        } else {
            r matches Ok(v) && v@.len() == 0
        },
{
    if status_ok {
        body
    } else {
        Ok(Vec::new())
    }
}

/// The token of a sign-in reply. On success the body's `token` text is the
/// token (`token` is `None` where the body has no such text, `Err` where the
/// body is no JSON); an empty or missing token is "No token received". A
/// reply without success is "Invalid username or password".
pub fn login_request(status_ok: bool, token: Result<Option<String>, String>) -> (r: Result<String, String>)
    ensures
        !status_ok ==> (r matches Err(e) && e@ == "Invalid username or password"@),
        status_ok ==> match token {
            Err(e) => r matches Err(m) && m@ == e@,
            Ok(None) => r matches Err(m) && m@ == "No token received"@,
            Ok(Some(t)) => if t@.len() == 0 {
                r matches Err(m) && m@ == "No token received"@
            } else {
                r matches Ok(v) && v@ == t@
            },
        },
{
    if !status_ok {
        return Err("Invalid username or password".to_string());
    }
    match token {
        Err(e) => Err(e),
        Ok(None) => Err("No token received".to_string()),
        Ok(Some(t)) => {
            if t.as_str().unicode_len() == 0 {
                Err("No token received".to_string())
            } else {
                Ok(t)
            }
        },
    }
}

/// The token of a registration reply: on success the body's `token` text,
/// or the empty text where the body has none; without success "Registration
/// failed".
pub fn register_request(status_ok: bool, token: Result<Option<String>, String>) -> (r: Result<String, String>)
    ensures
        !status_ok ==> (r matches Err(e) && e@ == "Registration failed"@),
        status_ok ==> match token {
            Err(e) => r matches Err(m) && m@ == e@,
            Ok(None) => r matches Ok(v) && v@.len() == 0,
            Ok(Some(t)) => r matches Ok(v) && v@ == t@,
        },
{
    if !status_ok {
        return Err("Registration failed".to_string());
    }
    match token {
        Err(e) => Err(e),
        Ok(None) => Ok(String::new()),
        Ok(Some(t)) => Ok(t),
    }
}

/// The outcome of an enrolment request: done on success, otherwise "Failed
/// to enroll".
pub fn enroll_course(status_ok: bool) -> (r: Result<(), String>)
    ensures
        status_ok ==> r is Ok,
        !status_ok ==> (r matches Err(e) && e@ == "Failed to enroll"@),
{
    if status_ok {
        Ok(())
    } else {
        Err("Failed to enroll".to_string())
    }
}

/// The JSON body of a sign-in request, keys in sorted order as `serde_json`
/// writes an object: `{"password":…,"username":…}`.
pub open spec fn login_body_text(username: Seq<char>, password: Seq<char>) -> Seq<char> {
    "{\"password\":"@ + json_string(password) + ",\"username\":"@ + json_string(username) + "}"@
}

/// Builds the JSON body of a sign-in request.
pub fn login_body(username: &str, password: &str) -> (body: String)
    ensures
        body@ == login_body_text(username@, password@),
{
    let mut body = String::new();
    body.append("{\"password\":");
    push_json_string(&mut body, password);
    body.append(",\"username\":");
    push_json_string(&mut body, username);
    body.append("}");
    assert(body@ =~= login_body_text(username@, password@));
    body
}

/// The JSON body of a registration request, keys in sorted order as
/// `serde_json` writes an object:
/// `{"email":…,"fullname":…,"password":…,"username":…}`.
pub open spec fn register_body_text(
    username: Seq<char>,
    password: Seq<char>,
    fullname: Seq<char>,
    email: Seq<char>,
) -> Seq<char> {
    "{\"email\":"@ + json_string(email) + ",\"fullname\":"@ + json_string(fullname) + ",\"password\":"@
        + json_string(password) + ",\"username\":"@ + json_string(username) + "}"@
}

/// Builds the JSON body of a registration request.
pub fn register_body(username: &str, password: &str, fullname: &str, email: &str) -> (body: String)
    ensures
        body@ == register_body_text(username@, password@, fullname@, email@),
{
    let mut body = String::new();
    body.append("{\"email\":");
    push_json_string(&mut body, email);
    body.append(",\"fullname\":");
    push_json_string(&mut body, fullname);
    body.append(",\"password\":");
    push_json_string(&mut body, password);
    body.append(",\"username\":");
    push_json_string(&mut body, username);
    body.append("}");
    assert(body@ =~= register_body_text(username@, password@, fullname@, email@));
    body
}

/// What a sign-in or registration page does with the outcome of its request:
/// the token to keep, where to go, and the messages to show.
#[derive(Clone, Debug)]
pub struct PageEffect {
    pub token: Option<String>,
    pub navigate_to: Option<String>,
    pub error: Option<String>,
    pub success: Option<String>,
}

/// The option holds the text `t`.
pub open spec fn holds_text(o: Option<String>, t: Seq<char>) -> bool {
    o matches Some(x) && x@ == t
}

/// The sign-in page: on success it keeps the token and goes to the home
/// page; on failure it shows the message.
pub fn login_page_effect(outcome: Result<String, String>) -> (e: PageEffect)
    ensures
        match outcome {
            Ok(t) => holds_text(e.token, t@) && holds_text(e.navigate_to, "/"@) && e.error is None
                && e.success is None,
            Err(m) => e.token is None && e.navigate_to is None && holds_text(e.error, m@) && e.success is None,
        },
{
    match outcome {
        Ok(t) => PageEffect { token: Some(t), navigate_to: Some("/".to_string()), error: None, success: None },
        Err(m) => PageEffect { token: None, navigate_to: None, error: Some(m), success: None },
    }
}

/// The registration page: on success it keeps the token, goes to the home
/// page and shows "Registration successful!"; on failure it shows the
/// message.
pub fn register_page_effect(outcome: Result<String, String>) -> (e: PageEffect)
    ensures
        match outcome {
            Ok(t) => holds_text(e.token, t@) && holds_text(e.navigate_to, "/"@) && e.error is None
                && holds_text(e.success, "Registration successful!"@),
            Err(m) => e.token is None && e.navigate_to is None && holds_text(e.error, m@) && e.success is None,
        },
{
    match outcome {
        Ok(t) => PageEffect {
            token: Some(t),
            navigate_to: Some("/".to_string()),
            error: None,
            success: Some("Registration successful!".to_string()),
        },
        Err(m) => PageEffect { token: None, navigate_to: None, error: Some(m), success: None },
    }
}

} // verus!
