//! Reading stored rows back into records: identifiers are read as UUIDs,
//! instants as RFC 3339 text, flags as integers equal to 1.

use vstd::prelude::*;
use crate::clock::{parse_rfc3339, reads_back_plain, rfc3339_reading, written_plain, Timestamp};
use crate::ids::{parse_uuid, reads_back_hyphenated, uuid_reading};
use crate::text::uuid_hyphenated;
use crate::records::{
    flag, Article, ArticleRow, Certificate, CertificateRow, Course, CourseRow, Lesson, LessonRow, User,
    UserListingRow,
};

verus! {

/// The instant a stored text reads as.
pub open spec fn instant_of(r: Result<(i64, u32), Seq<char>>) -> Timestamp {
    Timestamp { secs: r->Ok_0.0, nanos: r->Ok_0.1 }
}

/// The first of two problems, or `None` when there is neither.
pub open spec fn first_of(a: Option<Seq<char>>, b: Option<Seq<char>>) -> Option<Seq<char>> {
    if a is Some {
        a
    } else {
        b
    }
}

/// The error of a UUID text that does not read, or `None`.
pub open spec fn uuid_problem(text: Seq<char>) -> Option<Seq<char>> {
    match uuid_reading(text) {
        Ok(_) => None,
        Err(e) => Some(e),
    }
}

/// The error of an instant text that does not read, or `None`.
pub open spec fn instant_problem(text: Seq<char>) -> Option<Seq<char>> {
    match rfc3339_reading(text) {
        Ok(_) => None,
        Err(e) => Some(e),
    }
}

/// A record that is read from a stored row.
pub trait FromRow: Sized {
    type Row;

    /// Why the row cannot be read: the first of its fields, in the order the
    /// record lists them, that does not read.
    spec fn row_problem(row: &Self::Row) -> Option<Seq<char>>;

    /// The record holds what the row stores.
    spec fn reads(rec: &Self, row: &Self::Row) -> bool;

    /// The row is what storing the record writes: identifiers as their
    /// hyphenated text, instants as the RFC 3339 text of plain instants,
    /// flags as 1 or 0, everything else as it is.
    spec fn written_from(rec: &Self, row: &Self::Row) -> bool;

    /// The two records hold the same values.
    spec fn same_record(a: &Self, b: &Self) -> bool;

    /// Reads a row. A row written from a record reads back as that record.
    fn from_row(row: &Self::Row) -> (r: Result<Self, String>)
        ensures
            match r {
                Ok(v) => Self::row_problem(row) is None && Self::reads(&v, row),
                Err(e) => Self::row_problem(row) == Some(e@),
            },
            forall|rec: Self| #[trigger] Self::written_from(&rec, row) ==> (r is Ok && Self::same_record(&r->Ok_0, &rec)),
    ;
}

/// Why a list of rows cannot be read: the problem of its first unreadable
/// row.
pub open spec fn rows_problem<T: FromRow>(rows: Seq<T::Row>) -> Option<Seq<char>>
    decreases rows.len(),
{
    if rows.len() == 0 {
        None
    } else {
        match rows_problem::<T>(rows.drop_last()) {
            Some(e) => Some(e),
            None => T::row_problem(&rows.last()),
        }
    }
}

/// Every row is what storing the record at its place writes.
pub open spec fn all_written<T: FromRow>(recs: Seq<T>, rows: Seq<T::Row>) -> bool {
    &&& recs.len() == rows.len()
    &&& forall|i: int| 0 <= i < rows.len() ==> T::written_from(&#[trigger] recs[i], &rows[i])
}

/// The two lists hold the same records in the same order.
pub open spec fn all_same<T: FromRow>(a: Seq<T>, b: Seq<T>) -> bool {
    &&& a.len() == b.len()
    &&& forall|i: int| 0 <= i < a.len() ==> T::same_record(&#[trigger] a[i], &b[i])
}

/// Reads every row in order; the first row that cannot be read stops it.
/// Rows written from records read back as those records.
pub fn from_rows<T: FromRow>(rows: &Vec<T::Row>) -> (r: Result<Vec<T>, String>)
    ensures
        match r {
            Ok(v) => {
                &&& rows_problem::<T>(rows@) is None
                &&& v@.len() == rows@.len()
                &&& forall|i: int| 0 <= i < rows@.len() ==> T::reads(&#[trigger] v@[i], &rows@[i])
            },
            Err(e) => rows_problem::<T>(rows@) == Some(e@),
        },
        forall|recs: Seq<T>| #[trigger] all_written::<T>(recs, rows@) ==> (r is Ok && all_same::<T>(r->Ok_0@, recs)),
        forall|i: int, rec: T|
            0 <= i < rows@.len() && #[trigger] T::written_from(&rec, &rows@[i]) && r is Ok ==> T::same_record(
                &r->Ok_0@[i],
                &rec,
            ),
{
    let mut out: Vec<T> = Vec::new();
    let mut i: usize = 0;
    while i < rows.len()
        invariant
            i <= rows@.len(),
            out@.len() == i,
            rows_problem::<T>(rows@.take(i as int)) is None,
            forall|j: int| 0 <= j < i ==> T::reads(&#[trigger] out@[j], &rows@[j]),
            forall|recs: Seq<T>|
                #[trigger] all_written::<T>(recs, rows@) ==> forall|j: int|
                    0 <= j < i ==> T::same_record(&#[trigger] out@[j], &recs[j]),
            forall|j: int, rec: T|
                0 <= j < i && #[trigger] T::written_from(&rec, &rows@[j]) ==> T::same_record(&out@[j], &rec),
        decreases rows@.len() - i,
    {
        assert(rows@.take(i + 1).drop_last() =~= rows@.take(i as int));
        let ghost before = out@;
        match T::from_row(&rows[i]) {
            Ok(v) => {
                out.push(v);
            },
            Err(e) => {
                proof {
                    lemma_rows_problem_prefix::<T>(rows@, (i + 1) as int);
                    assert forall|recs: Seq<T>| #[trigger] all_written::<T>(recs, rows@) implies false by {
                        assert(T::written_from(&recs[i as int], &rows@[i as int]));
                    }
                }
                return Err(e);
            },
        }
        proof {
            assert forall|recs: Seq<T>| #[trigger] all_written::<T>(recs, rows@) implies forall|j: int|
                0 <= j < i + 1 ==> T::same_record(&#[trigger] out@[j], &recs[j]) by {
                assert(T::written_from(&recs[i as int], &rows@[i as int]));
                assert forall|j: int| 0 <= j < i + 1 implies T::same_record(&#[trigger] out@[j], &recs[j]) by {
                    if j < i {
                        assert(out@[j] == before[j]);
                    }
                }
            }
            assert forall|j: int, rec: T|
                0 <= j < i + 1 && #[trigger] T::written_from(&rec, &rows@[j]) implies T::same_record(&out@[j], &rec) by {
                if j < i {
                    assert(out@[j] == before[j]);
                }
            }
        }
        i = i + 1;
    }
    assert(rows@.take(rows@.len() as int) =~= rows@);
    Ok(out)
}

/// A problem of a prefix is the problem of the whole list.
proof fn lemma_rows_problem_prefix<T: FromRow>(rows: Seq<T::Row>, n: int)
    requires
        0 <= n <= rows.len(),
        rows_problem::<T>(rows.take(n)) is Some,
    ensures
        rows_problem::<T>(rows) == rows_problem::<T>(rows.take(n)),
    decreases rows.len() - n,
{
    if n < rows.len() {
        assert(rows.take(n + 1).drop_last() =~= rows.take(n));
        lemma_rows_problem_prefix::<T>(rows, n + 1);
    } else {
        assert(rows.take(n) =~= rows);
    }
}

fn read_uuid(s: &String) -> (r: Result<u128, String>)
    ensures
        match r {
            Ok(x) => uuid_reading(s@) == Ok::<u128, Seq<char>>(x),
            Err(e) => uuid_reading(s@) == Err::<u128, Seq<char>>(e@),
        },
        reads_back_hyphenated(s@, r),
{
    parse_uuid(s.as_str())
}

fn read_instant(s: &String) -> (r: Result<Timestamp, String>)
    ensures
        match r {
            Ok(t) => rfc3339_reading(s@) == Ok::<(i64, u32), Seq<char>>((t.secs, t.nanos)),
            Err(e) => rfc3339_reading(s@) == Err::<(i64, u32), Seq<char>>(e@),
        },
        reads_back_plain(s@, r),
{
    parse_rfc3339(s.as_str())
}

impl FromRow for Course {
    type Row = CourseRow;

    open spec fn row_problem(row: &CourseRow) -> Option<Seq<char>> {
        first_of(uuid_problem(row.id@), instant_problem(row.created_at@))
    }

    open spec fn reads(c: &Course, row: &CourseRow) -> bool {
        &&& uuid_reading(row.id@) == Ok::<u128, Seq<char>>(c.id)
        &&& c.title@ == row.title@
        &&& c.description@ == row.description@
        &&& c.content@ == row.content@
        &&& c.price == row.price
        &&& c.duration_hours == row.duration_hours
        &&& c.level@ == row.level@
        &&& c.image_url@ == row.image_url@
        &&& c.is_published == flag(row.is_published)
        &&& c.created_at == instant_of(rfc3339_reading(row.created_at@))
    }

    open spec fn written_from(c: &Course, row: &CourseRow) -> bool {
        &&& row.id@ == uuid_hyphenated(c.id)
        &&& row.title@ == c.title@
        &&& row.description@ == c.description@
        &&& row.content@ == c.content@
        &&& row.price == c.price
        &&& row.duration_hours == c.duration_hours
        &&& row.level@ == c.level@
        &&& row.image_url@ == c.image_url@
        &&& row.is_published == (if c.is_published { 1i64 } else { 0i64 })
        &&& written_plain(row.created_at@, c.created_at)
    }

    open spec fn same_record(a: &Course, b: &Course) -> bool {
        &&& a.id == b.id
        &&& a.title@ == b.title@
        &&& a.description@ == b.description@
        &&& a.content@ == b.content@
        &&& a.price == b.price
        &&& a.duration_hours == b.duration_hours
        &&& a.level@ == b.level@
        &&& a.image_url@ == b.image_url@
        &&& a.is_published == b.is_published
        &&& a.created_at == b.created_at
    }

    fn from_row(row: &CourseRow) -> (r: Result<Course, String>) {
        let id = match read_uuid(&row.id) {
            Ok(x) => x,
            Err(e) => return Err(e),
        };
        let created_at = match read_instant(&row.created_at) {
            Ok(t) => t,
            Err(e) => return Err(e),
        };
        Ok(
            Course {
                id,
                title: row.title.clone(),
                description: row.description.clone(),
                content: row.content.clone(),
                price: row.price,
                duration_hours: row.duration_hours,
                level: row.level.clone(),
                image_url: row.image_url.clone(),
                is_published: row.is_published == 1,
                created_at,
            },
        )
    }
}

impl FromRow for Lesson {
    type Row = LessonRow;

    open spec fn row_problem(row: &LessonRow) -> Option<Seq<char>> {
        first_of(uuid_problem(row.id@), uuid_problem(row.course_id@))
    }

    open spec fn reads(l: &Lesson, row: &LessonRow) -> bool {
        &&& uuid_reading(row.id@) == Ok::<u128, Seq<char>>(l.id)
        &&& uuid_reading(row.course_id@) == Ok::<u128, Seq<char>>(l.course_id)
        &&& l.title@ == row.title@
        &&& l.video_url@ == row.video_url@
        &&& l.content@ == row.content@
        &&& l.duration_minutes == row.duration_minutes
        &&& l.order_index == row.order_index
    }

    open spec fn written_from(l: &Lesson, row: &LessonRow) -> bool {
        &&& row.id@ == uuid_hyphenated(l.id)
        &&& row.course_id@ == uuid_hyphenated(l.course_id)
        &&& row.title@ == l.title@
        &&& row.video_url@ == l.video_url@
        &&& row.content@ == l.content@
        &&& row.duration_minutes == l.duration_minutes
        &&& row.order_index == l.order_index
    }

    open spec fn same_record(a: &Lesson, b: &Lesson) -> bool {
        &&& a.id == b.id
        &&& a.course_id == b.course_id
        &&& a.title@ == b.title@
        &&& a.video_url@ == b.video_url@
        &&& a.content@ == b.content@
        &&& a.duration_minutes == b.duration_minutes
        &&& a.order_index == b.order_index
    }

    fn from_row(row: &LessonRow) -> (r: Result<Lesson, String>) {
        let id = match read_uuid(&row.id) {
            Ok(x) => x,
            Err(e) => return Err(e),
        };
        let course_id = match read_uuid(&row.course_id) {
            Ok(x) => x,
            Err(e) => return Err(e),
        };
        Ok(
            Lesson {
                id,
                course_id,
                title: row.title.clone(),
                video_url: row.video_url.clone(),
                content: row.content.clone(),
                duration_minutes: row.duration_minutes,
                order_index: row.order_index,
            },
        )
    }
}

impl FromRow for Article {
    type Row = ArticleRow;

    open spec fn row_problem(row: &ArticleRow) -> Option<Seq<char>> {
        first_of(
            uuid_problem(row.id@),
            first_of(uuid_problem(row.author_id@), instant_problem(row.created_at@)),
        )
    }

    open spec fn reads(a: &Article, row: &ArticleRow) -> bool {
        &&& uuid_reading(row.id@) == Ok::<u128, Seq<char>>(a.id)
        &&& a.title@ == row.title@
        &&& a.content@ == row.content@
        &&& uuid_reading(row.author_id@) == Ok::<u128, Seq<char>>(a.author_id)
        &&& a.views == row.views
        &&& a.created_at == instant_of(rfc3339_reading(row.created_at@))
    }

    open spec fn written_from(a: &Article, row: &ArticleRow) -> bool {
        &&& row.id@ == uuid_hyphenated(a.id)
        &&& row.title@ == a.title@
        &&& row.content@ == a.content@
        &&& row.author_id@ == uuid_hyphenated(a.author_id)
        &&& row.views == a.views
        &&& written_plain(row.created_at@, a.created_at)
    }

    open spec fn same_record(a: &Article, b: &Article) -> bool {
        &&& a.id == b.id
        &&& a.title@ == b.title@
        &&& a.content@ == b.content@
        &&& a.author_id == b.author_id
        &&& a.views == b.views
        &&& a.created_at == b.created_at
    }

    fn from_row(row: &ArticleRow) -> (r: Result<Article, String>) {
        let id = match read_uuid(&row.id) {
            Ok(x) => x,
            Err(e) => return Err(e),
        };
        let author_id = match read_uuid(&row.author_id) {
            Ok(x) => x,
            Err(e) => return Err(e),
        };
        let created_at = match read_instant(&row.created_at) {
            Ok(t) => t,
            Err(e) => return Err(e),
        };
        Ok(
            Article {
                id,
                title: row.title.clone(),
                content: row.content.clone(),
                author_id,
                views: row.views,
                created_at,
            },
        )
    }
}

impl FromRow for Certificate {
    type Row = CertificateRow;

    open spec fn row_problem(row: &CertificateRow) -> Option<Seq<char>> {
        first_of(
            uuid_problem(row.id@),
            first_of(
                uuid_problem(row.user_id@),
                first_of(uuid_problem(row.course_id@), instant_problem(row.issued_at@)),
            ),
        )
    }

    open spec fn reads(c: &Certificate, row: &CertificateRow) -> bool {
        &&& uuid_reading(row.id@) == Ok::<u128, Seq<char>>(c.id)
        &&& uuid_reading(row.user_id@) == Ok::<u128, Seq<char>>(c.user_id)
        &&& uuid_reading(row.course_id@) == Ok::<u128, Seq<char>>(c.course_id)
        &&& c.issued_at == instant_of(rfc3339_reading(row.issued_at@))
        &&& c.certificate_code@ == row.certificate_code@
    }

    open spec fn written_from(c: &Certificate, row: &CertificateRow) -> bool {
        &&& row.id@ == uuid_hyphenated(c.id)
        &&& row.user_id@ == uuid_hyphenated(c.user_id)
        &&& row.course_id@ == uuid_hyphenated(c.course_id)
        &&& written_plain(row.issued_at@, c.issued_at)
        &&& row.certificate_code@ == c.certificate_code@
    }

    open spec fn same_record(a: &Certificate, b: &Certificate) -> bool {
        &&& a.id == b.id
        &&& a.user_id == b.user_id
        &&& a.course_id == b.course_id
        &&& a.issued_at == b.issued_at
        &&& a.certificate_code@ == b.certificate_code@
    }

    fn from_row(row: &CertificateRow) -> (r: Result<Certificate, String>) {
        let id = match read_uuid(&row.id) {
            Ok(x) => x,
            Err(e) => return Err(e),
        };
        let user_id = match read_uuid(&row.user_id) {
            Ok(x) => x,
            Err(e) => return Err(e),
        };
        let course_id = match read_uuid(&row.course_id) {
            Ok(x) => x,
            Err(e) => return Err(e),
        };
        let issued_at = match read_instant(&row.issued_at) {
            Ok(t) => t,
            Err(e) => return Err(e),
        };
        Ok(
            Certificate {
                id,
                user_id,
                course_id,
                issued_at,
                certificate_code: row.certificate_code.clone(),
            },
        )
    }
}

impl FromRow for User {
    type Row = UserListingRow;

    open spec fn row_problem(row: &UserListingRow) -> Option<Seq<char>> {
        first_of(uuid_problem(row.id@), instant_problem(row.created_at@))
    }

    open spec fn reads(u: &User, row: &UserListingRow) -> bool {
        &&& uuid_reading(row.id@) == Ok::<u128, Seq<char>>(u.id)
        &&& u.email@ == row.email@
        &&& u.username@ == row.username@
        &&& u.full_name@ == row.full_name@
        &&& u.is_admin == flag(row.is_admin)
        &&& u.created_at == instant_of(rfc3339_reading(row.created_at@))
    }

    open spec fn written_from(u: &User, row: &UserListingRow) -> bool {
        &&& row.id@ == uuid_hyphenated(u.id)
        &&& row.email@ == u.email@
        &&& row.username@ == u.username@
        &&& row.full_name@ == u.full_name@
        &&& row.is_admin == (if u.is_admin { 1i64 } else { 0i64 })
        &&& written_plain(row.created_at@, u.created_at)
    }

    open spec fn same_record(a: &User, b: &User) -> bool {
        &&& a.id == b.id
        &&& a.email@ == b.email@
        &&& a.username@ == b.username@
        &&& a.full_name@ == b.full_name@
        &&& a.is_admin == b.is_admin
        &&& a.created_at == b.created_at
    }

    fn from_row(row: &UserListingRow) -> (r: Result<User, String>) {
        let id = match read_uuid(&row.id) {
            Ok(x) => x,
            Err(e) => return Err(e),
        };
        let created_at = match read_instant(&row.created_at) {
            Ok(t) => t,
            Err(e) => return Err(e),
        };
        Ok(
            User {
                id,
                email: row.email.clone(),
                username: row.username.clone(),
                full_name: row.full_name.clone(),
                is_admin: row.is_admin == 1,
                created_at,
            },
        )
    }
}

} // verus!
