use edu_academy::client::{
    bearer, endpoint_url, enroll_course, enroll_url, fetch_articles, fetch_courses, fetch_my_courses,
    login_body, login_page_effect, login_request, register_body, register_page_effect, register_request,
    Article, Course, API_BASE,
};

#[test]
fn addresses() {
    assert_eq!(endpoint_url("/courses"), "http://localhost:8080/api/courses");
    assert_eq!(API_BASE, "http://localhost:8080/api");
    assert_eq!(enroll_url(5), "http://localhost:8080/api/courses/5/enroll");
    assert_eq!(enroll_url(-3), "http://localhost:8080/api/courses/-3/enroll");
    assert_eq!(bearer("abc"), "Bearer abc");
}

#[test]
fn list_replies() {
    let body = Ok(vec![Course { id: 1, title: "t".to_string(), description: "d".to_string() }]);
    assert_eq!(fetch_courses(true, body.clone()).unwrap().len(), 1);
    assert_eq!(fetch_courses(false, body.clone()).unwrap_err(), "Failed to load courses");
    assert_eq!(fetch_courses(true, Err("bad json".to_string())).unwrap_err(), "bad json");
    assert_eq!(fetch_my_courses(false, body.clone()).unwrap().len(), 0);
    assert_eq!(fetch_my_courses(true, body).unwrap()[0].title, "t");
    let arts: Result<Vec<Article>, String> = Ok(vec![]);
    assert_eq!(fetch_articles(false, arts.clone()).unwrap_err(), "Failed to load articles");
    assert!(fetch_articles(true, arts).unwrap().is_empty());
}

#[test]
fn login_replies() {
    assert_eq!(login_request(false, Ok(Some("t".to_string()))).unwrap_err(), "Invalid username or password");
    assert_eq!(login_request(true, Ok(Some("tok".to_string()))).unwrap(), "tok");
    assert_eq!(login_request(true, Ok(Some(String::new()))).unwrap_err(), "No token received");
    assert_eq!(login_request(true, Ok(None)).unwrap_err(), "No token received");
    assert_eq!(login_request(true, Err("eof".to_string())).unwrap_err(), "eof");
}

#[test]
fn register_replies() {
    assert_eq!(register_request(false, Ok(Some("t".to_string()))).unwrap_err(), "Registration failed");
    assert_eq!(register_request(true, Ok(Some("t".to_string()))).unwrap(), "t");
    assert_eq!(register_request(true, Ok(None)).unwrap(), "");
    assert_eq!(register_request(true, Err("eof".to_string())).unwrap_err(), "eof");
}

#[test]
fn enroll_replies() {
    assert!(enroll_course(true).is_ok());
    assert_eq!(enroll_course(false).unwrap_err(), "Failed to enroll");
}

#[test]
fn request_bodies_match_serde_json() {
    let mut m = serde_json::Map::new();
    m.insert("username".to_string(), serde_json::Value::String("bob".to_string()));
    m.insert("password".to_string(), serde_json::Value::String("p\"w".to_string()));
    assert_eq!(login_body("bob", "p\"w"), serde_json::to_string(&serde_json::Value::Object(m)).unwrap());
    assert_eq!(login_body("bob", "pw"), "{\"password\":\"pw\",\"username\":\"bob\"}");
    let mut r = serde_json::Map::new();
    r.insert("username".to_string(), serde_json::Value::String("u".to_string()));
    r.insert("password".to_string(), serde_json::Value::String("p".to_string()));
    r.insert("fullname".to_string(), serde_json::Value::String("F N".to_string()));
    r.insert("email".to_string(), serde_json::Value::String("e@x".to_string()));
    assert_eq!(register_body("u", "p", "F N", "e@x"), serde_json::to_string(&serde_json::Value::Object(r)).unwrap());
}

#[test]
fn page_effects() {
    let e = login_page_effect(Ok("tok".to_string()));
    assert_eq!(e.token.as_deref(), Some("tok"));
    assert_eq!(e.navigate_to.as_deref(), Some("/"));
    assert!(e.error.is_none() && e.success.is_none());
    let e = login_page_effect(Err("bad".to_string()));
    assert_eq!(e.error.as_deref(), Some("bad"));
    assert!(e.token.is_none() && e.navigate_to.is_none());
    let e = register_page_effect(Ok("t".to_string()));
    assert_eq!(e.success.as_deref(), Some("Registration successful!"));
    assert_eq!(e.navigate_to.as_deref(), Some("/"));
    let e = register_page_effect(Err("Registration failed".to_string()));
    assert_eq!(e.error.as_deref(), Some("Registration failed"));
    assert!(e.success.is_none());
}
