//! Certificates of completion: issued once per account and course, each with
//! a code made of the issue date and a random identifier.

use vstd::prelude::*;
use vstd::string::*;
use crate::catalog::{listing, listing_outcome};
use crate::clock::{
    compact_date_text, eight_digits, format_compact_date, format_rfc3339, four_digit_year, now_utc,
    rfc3339_text, Timestamp,
};
use crate::ids::{is_v4, new_uuid_v4, parse_uuid, uuid_reading};
use crate::records::{
    aborts, respond, responds, Certificate, CertificateRow, Failure, STATUS_BAD_REQUEST,
    STATUS_INTERNAL_SERVER_ERROR,
};
use crate::text::{lemma_nibble_below_16, uuid_hyphenated, uuid_simple, uuid_to_hyphenated, uuid_to_simple};

verus! {

/// The code of a certificate: `CERT-`, the issue date as `YYYYMMDD`, `-`,
/// and the 32 hexadecimal digits of a random identifier.
pub open spec fn certificate_code_text(date: Seq<char>, nonce: u128) -> Seq<char> {
    "CERT-"@ + date + "-"@ + uuid_simple(nonce)
}

/// Builds the code of a certificate from the issue date and an identifier.
pub fn certificate_code(date: &str, nonce: u128) -> (code: String)
    ensures
        code@ == certificate_code_text(date@, nonce),
{
    let mut code = String::new();
    code.append("CERT-");
    code.append(date);
    code.append("-");
    let digits = uuid_to_simple(nonce);
    code.append(digits.as_str());
    code
}

/// A certificate to issue: the row to store, and what the answer holds
/// beside the account.
#[derive(Clone, Debug)]
pub struct NewCertificate {
    pub row: CertificateRow,
    pub id: u128,
    pub course_id: u128,
    pub issued_at: Timestamp,
}

/// The certificate `n` is issued to account `user_id` for course
/// `course_id` under a fresh version-4 identifier: the row stores the
/// hyphenated texts of the identifiers, the RFC 3339 text of the issue
/// instant, and a code made from the issue date's text and another fresh
/// version-4 identifier; in a year of four digits the code has the form
/// `CERT-YYYYMMDD-` followed by 32 hexadecimal digits.
pub open spec fn certificate_for(n: NewCertificate, user_id: Seq<char>, course_id: u128) -> bool {
    &&& is_v4(n.id)
    &&& n.row.id@ == uuid_hyphenated(n.id)
    &&& n.row.user_id@ == user_id
    &&& n.course_id == course_id && n.row.course_id@ == uuid_hyphenated(course_id)
    &&& rfc3339_text(n.issued_at.secs, n.issued_at.nanos) == Some(n.row.issued_at@)
    &&& 0 <= n.issued_at.secs && n.issued_at.nanos < 1_000_000_000
    &&& exists|date: Seq<char>, nonce: u128|
        #[trigger] certificate_code_text(date, nonce) == n.row.certificate_code@
            && compact_date_text(n.issued_at.secs, n.issued_at.nanos) == Some(date) && is_v4(nonce)
            && (four_digit_year(n.issued_at.secs) ==> eight_digits(date))
    &&& four_digit_year(n.issued_at.secs) ==> certificate_code_form(n.row.certificate_code@)
}

/// A lowercase hexadecimal digit.
pub open spec fn is_hex_digit(c: char) -> bool {
    ('0' <= c <= '9') || ('a' <= c <= 'f')
}

/// The form of a certificate code: 46 characters, `CERT-`, eight decimal
/// digits, `-`, and 32 lowercase hexadecimal digits.
pub open spec fn certificate_code_form(code: Seq<char>) -> bool {
    &&& code.len() == 46
    &&& code.take(5) == "CERT-"@
    &&& forall|i: int| 5 <= i < 13 ==> '0' <= #[trigger] code[i] <= '9'
    &&& code[13] == '-'
    &&& forall|i: int| 14 <= i < 46 ==> is_hex_digit(#[trigger] code[i])
}

/// A code built from an eight-digit date has the form of a certificate code.
pub proof fn lemma_certificate_code_form(date: Seq<char>, nonce: u128)
    requires
        eight_digits(date),
    ensures
        certificate_code_form(certificate_code_text(date, nonce)),
{
    reveal_strlit("CERT-");
    reveal_strlit("-");
    let code = certificate_code_text(date, nonce);
    assert(code.take(5) =~= "CERT-"@);
    assert forall|i: int| 5 <= i < 13 implies '0' <= #[trigger] code[i] <= '9' by {
        assert(code[i] == date[i - 5]);
    }
    assert forall|i: int| 14 <= i < 46 implies is_hex_digit(#[trigger] code[i]) by {
        assert(code[i] == uuid_simple(nonce)[i - 14]);
        lemma_nibble_below_16(nonce, i - 14);
    }
}

/// What issuing answers, given the count of certificates the account
/// already holds for the course: a failed count is an internal error with
/// its message; a certificate already held is a bad request; otherwise a new
/// certificate.
pub open spec fn issue_outcome(
    user_id: Seq<char>,
    course_id: u128,
    existing: Result<i64, String>,
    r: Result<NewCertificate, Failure>,
) -> bool {
    match existing {
        Err(e) => r matches Err(f) && responds(f, STATUS_INTERNAL_SERVER_ERROR, e@),
        Ok(n) => if n > 0 {
            r matches Err(f) && responds(f, STATUS_BAD_REQUEST, "Certificate already issued"@)
        } else {
            r matches Ok(c) && certificate_for(c, user_id, course_id)
        },
    }
}

/// Decides on issuing a certificate of course `course_id` to account
/// `user_id`, given how many it already holds, and prepares it: a fresh
/// identifier, the current time, and a code from the date and another fresh
/// identifier.
pub fn issue_certificate(user_id: &str, course_id: u128, existing: Result<i64, String>) -> (r: Result<NewCertificate, Failure>)
    ensures
        issue_outcome(user_id@, course_id, existing, r),
{
    let n = match existing {
        Ok(n) => n,
        Err(e) => return Err(respond(STATUS_INTERNAL_SERVER_ERROR, e)),
    };
    if n > 0 {
        return Err(respond(STATUS_BAD_REQUEST, "Certificate already issued".to_string()));
    }
    let id = new_uuid_v4();
    let now = now_utc();
    let date = match format_compact_date(now) {
        Some(d) => d,
        None => {
            assert(false);
            String::new()
        },
    };
    let nonce = new_uuid_v4();
    let code = certificate_code(date.as_str(), nonce);
    let issued_at = match format_rfc3339(now) {
        Some(s) => s,
        None => {
            assert(false);
            String::new()
        },
    };
    let c = NewCertificate {
        row: CertificateRow {
            id: uuid_to_hyphenated(id),
            user_id: user_id.to_string(),
            course_id: uuid_to_hyphenated(course_id),
            issued_at,
            certificate_code: code,
        },
        id,
        course_id,
        issued_at: now,
    };
    assert(certificate_code_text(date@, nonce) == c.row.certificate_code@);
    proof {
        if four_digit_year(now.secs) {
            lemma_certificate_code_form(date@, nonce);
        }
    }
    Ok(c)
}

/// Answers an issued certificate once stored: an internal error with the
/// store's message; otherwise the certificate, whose account is read back
/// from its stored text (the request is abandoned where that fails).
pub fn certificate_issued(c: NewCertificate, saved: Result<(), String>) -> (r: Result<Certificate, Failure>)
    ensures
        match saved {
            Err(e) => r matches Err(f) && responds(f, STATUS_INTERNAL_SERVER_ERROR, e@),
            Ok(_) => match uuid_reading(c.row.user_id@) {
                Err(e) => r matches Err(f) && aborts(f, e),
                Ok(u) => r matches Ok(cert) && {
                    &&& cert.id == c.id
                    &&& cert.user_id == u
                    &&& cert.course_id == c.course_id
                    &&& cert.issued_at == c.issued_at
                    &&& cert.certificate_code@ == c.row.certificate_code@
                },
            },
        },
{
    if let Err(e) = saved {
        return Err(respond(STATUS_INTERNAL_SERVER_ERROR, e));
    }
    let user_id = match parse_uuid(c.row.user_id.as_str()) {
        Ok(u) => u,
        Err(e) => return Err(Failure::Abort(e)),
    };
    Ok(
        Certificate {
            id: c.id,
            user_id,
            course_id: c.course_id,
            issued_at: c.issued_at,
            certificate_code: c.row.certificate_code,
        },
    )
}

/// The certificates of the acting account, from the rows of their query.
pub fn get_my_certificates(rows: Result<Vec<CertificateRow>, String>) -> (r: Result<Vec<Certificate>, Failure>)
    ensures
        listing_outcome::<Certificate>(rows, r),
{
    listing::<Certificate>(rows)
}

} // verus!
