//! The rules of an online learning platform: accounts and sign-in, the course
//! catalogue, lessons, enrolments, articles and certificates, with the text
//! formats the service produces, stated and proved with Verus.

pub mod text;
pub mod clock;
pub mod ids;
pub mod password;
pub mod token;
pub mod records;
pub mod rows;
pub mod auth;
pub mod laws;
pub mod catalog;
pub mod admin;
pub mod certificates;
pub mod setup;
pub mod client;
pub mod tables;
