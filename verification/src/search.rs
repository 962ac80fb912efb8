//! Join/search engine: reconstructs denormalized course cards by joining
//! each course to its owning teacher account, the teacher's department
//! and the instructor's user row, then applies one free-text query across
//! all joined fields. A course whose chain does not resolve is silently
//! dropped, not an error.

use vstd::prelude::*;
use vstd::string::StrSliceExecFns;
use crate::connection::ServerConnection;
use crate::connection::ServerError;
use crate::db_driver::selected_users;
use crate::filters::Associativity;
use crate::filters::Filter;
use crate::filters::UsersFilter;
use crate::models::Course;
use crate::models::CourseView;
use crate::models::Department;
use crate::models::DepartmentView;
use crate::models::EntityView;
use crate::models::ReceiverType;
use crate::models::Table;
use crate::models::TeacherAccount;
use crate::models::TeacherAccountView;
use crate::models::User;
use crate::models::UserView;
use crate::queries::lemma_filtered_match_all;
use crate::queries::lemma_selected_wrap;
use crate::strings::contains_sub;
use crate::strings::i32_dec;
use crate::strings::i32_to_string;
use crate::strings::is_substring;
use crate::strings::lower_seq;
use crate::strings::to_lower;
use crate::strings::trim;
use crate::strings::trimmed;

verus! {

/// The first teacher account whose own id matches, in storage order.
pub open spec fn first_teacher(ts: Seq<TeacherAccountView>, id: i32) -> Option<TeacherAccountView>
    decreases ts.len(),
{
    if ts.len() == 0 {
        None
    } else if ts[0].id == id {
        Some(ts[0])
    } else {
        first_teacher(ts.drop_first(), id)
    }
}

/// The first department whose id matches, in storage order.
pub open spec fn first_department(ds: Seq<DepartmentView>, id: i32) -> Option<DepartmentView>
    decreases ds.len(),
{
    if ds.len() == 0 {
        None
    } else if ds[0].id == id {
        Some(ds[0])
    } else {
        first_department(ds.drop_first(), id)
    }
}

/// The first user whose id matches, in storage order.
pub open spec fn first_user(us: Seq<UserView>, id: i32) -> Option<UserView>
    decreases us.len(),
{
    if us.len() == 0 {
        None
    } else if us[0].id == id {
        Some(us[0])
    } else {
        first_user(us.drop_first(), id)
    }
}

/// Whether a query hits one joined card: an empty query hits everything,
/// and otherwise the query must occur as a substring of the course name,
/// the course id, the teacher-account id, the department name carried by
/// the teacher, the teacher's user id, the department id, the
/// instructor's user id, email, username or phone, each id rendered in
/// decimal.
pub open spec fn card_query_hit(
    q: Seq<char>,
    c: CourseView,
    t: TeacherAccountView,
    d: DepartmentView,
    u: UserView,
) -> bool {
    q.len() == 0 || is_substring(q, c.course) || is_substring(q, i32_dec(c.id as int))
        || is_substring(q, i32_dec(t.id as int)) || is_substring(q, t.dept) || is_substring(
        q,
        i32_dec(t.teacher_id as int),
    ) || is_substring(q, i32_dec(d.id as int)) || is_substring(q, i32_dec(u.id as int))
        || is_substring(q, u.email) || is_substring(q, u.username) || is_substring(q, u.phone)
}

/// The joined course cards, in course storage order: for each course the
/// first teacher account with the course's teacher id, then that
/// teacher's department, then the teacher's user row; a course whose
/// chain breaks is dropped, and a resolved card is kept when the query
/// hits it.
pub open spec fn joined_cards(
    cs: Seq<CourseView>,
    ts: Seq<TeacherAccountView>,
    ds: Seq<DepartmentView>,
    us: Seq<UserView>,
    q: Seq<char>,
) -> Seq<(CourseView, TeacherAccountView, DepartmentView, UserView)>
    decreases cs.len(),
{
    if cs.len() == 0 {
        Seq::empty()
    } else {
        let rest = joined_cards(cs.drop_last(), ts, ds, us, q);
        let c = cs.last();
        match first_teacher(ts, c.teacher_id) {
            Some(t) => match first_department(ds, t.dept_id) {
                Some(d) => match first_user(us, t.teacher_id) {
                    Some(u) => if card_query_hit(q, c, t, d, u) {
                        rest.push((c, t, d, u))
                    } else {
                        rest
                    },
                    None => rest,
                },
                None => rest,
            },
            None => rest,
        }
    }
}

/// Whether a query hits one user row: as a substring of the username,
/// email, phone, or the id rendered in decimal.
pub open spec fn user_query_hit(q: Seq<char>, u: UserView) -> bool {
    is_substring(q, u.username) || is_substring(q, u.email) || is_substring(q, u.phone)
        || is_substring(q, i32_dec(u.id as int))
}

/// The user rows a free-text query hits, in storage order.
pub open spec fn searched_users(rows: Seq<UserView>, q: Seq<char>) -> Seq<UserView>
    decreases rows.len(),
{
    if rows.len() == 0 {
        Seq::empty()
    } else {
        let rest = searched_users(rows.drop_last(), q);
        if user_query_hit(q, rows.last()) {
            rest.push(rows.last())
        } else {
            rest
        }
    }
}

/// Finds the first teacher account with one account id.
fn find_teacher(ts: &Vec<TeacherAccount>, id: i32) -> (r: Option<TeacherAccount>)
    ensures
        match r {
            Some(t) => first_teacher(ts.deep_view(), id) == Some(t@),
            None => first_teacher(ts.deep_view(), id) is None,
        },
{
    let n = ts.len();
    proof {
        assert(ts.deep_view().subrange(0, n as int) =~= ts.deep_view());
    }
    let mut i: usize = 0;
    while i < n
        invariant
            n == ts@.len(),
            i <= n,
            first_teacher(ts.deep_view(), id) == first_teacher(
                ts.deep_view().subrange(i as int, n as int),
                id,
            ),
        decreases n - i,
    {
        proof {
            let dv = ts.deep_view();
            assert(dv[i as int] == ts@[i as int]@);
            assert(dv.subrange(i as int, n as int)[0] == dv[i as int]);
            assert(dv.subrange(i as int, n as int).drop_first() =~= dv.subrange(i + 1, n as int));
        }
        if ts[i].id == id {
            return Some(ts[i].clone());
        }
        i += 1;
    }
    proof {
        assert(ts.deep_view().subrange(n as int, n as int)
            =~= Seq::<TeacherAccountView>::empty());
    }
    None
}

/// Finds the first department with one id.
fn find_department(ds: &Vec<Department>, id: i32) -> (r: Option<Department>)
    ensures
        match r {
            Some(d) => first_department(ds.deep_view(), id) == Some(d@),
            None => first_department(ds.deep_view(), id) is None,
        },
{
    let n = ds.len();
    proof {
        assert(ds.deep_view().subrange(0, n as int) =~= ds.deep_view());
    }
    let mut i: usize = 0;
    while i < n
        invariant
            n == ds@.len(),
            i <= n,
            first_department(ds.deep_view(), id) == first_department(
                ds.deep_view().subrange(i as int, n as int),
                id,
            ),
        decreases n - i,
    {
        proof {
            let dv = ds.deep_view();
            assert(dv[i as int] == ds@[i as int]@);
            assert(dv.subrange(i as int, n as int)[0] == dv[i as int]);
            assert(dv.subrange(i as int, n as int).drop_first() =~= dv.subrange(i + 1, n as int));
        }
        if ds[i].id == id {
            return Some(ds[i].clone());
        }
        i += 1;
    }
    proof {
        assert(ds.deep_view().subrange(n as int, n as int) =~= Seq::<DepartmentView>::empty());
    }
    None
}

/// Finds the first user with one id.
fn find_user(us: &Vec<User>, id: i32) -> (r: Option<User>)
    ensures
        match r {
            Some(u) => first_user(us.deep_view(), id) == Some(u@),
            None => first_user(us.deep_view(), id) is None,
        },
{
    let n = us.len();
    proof {
        assert(us.deep_view().subrange(0, n as int) =~= us.deep_view());
    }
    let mut i: usize = 0;
    while i < n
        invariant
            n == us@.len(),
            i <= n,
            first_user(us.deep_view(), id) == first_user(
                us.deep_view().subrange(i as int, n as int),
                id,
            ),
        decreases n - i,
    {
        proof {
            let dv = us.deep_view();
            assert(dv[i as int] == us@[i as int]@);
            assert(dv.subrange(i as int, n as int)[0] == dv[i as int]);
            assert(dv.subrange(i as int, n as int).drop_first() =~= dv.subrange(i + 1, n as int));
        }
        if us[i].id == id {
            return Some(us[i].clone());
        }
        i += 1;
    }
    proof {
        assert(us.deep_view().subrange(n as int, n as int) =~= Seq::<UserView>::empty());
    }
    None
}

impl ServerConnection {
    /// Decides whether the query hits one joined card.
    fn did_query_match(
        &self,
        query: &String,
        course: &Course,
        teacher: &TeacherAccount,
        department: &Department,
        user: &User,
    ) -> (r: bool)
        ensures
            r == card_query_hit(query@, course@, teacher@, department@, user@),
    {
        if query.as_str().unicode_len() == 0 {
            return true;
        }
        let course_id = i32_to_string(course.id);
        let teacher_row_id = i32_to_string(teacher.id);
        let teacher_user_id = i32_to_string(teacher.teacher_id);
        let department_id = i32_to_string(department.id);
        let user_id = i32_to_string(user.id);
        let q = query.as_str();
        contains_sub(course.course.as_str(), q) || contains_sub(course_id.as_str(), q)
            || contains_sub(teacher_row_id.as_str(), q) || contains_sub(teacher.dept.as_str(), q)
            || contains_sub(teacher_user_id.as_str(), q) || contains_sub(department_id.as_str(), q)
            || contains_sub(user_id.as_str(), q) || contains_sub(user.email.as_str(), q)
            || contains_sub(user.username.as_str(), q) || contains_sub(user.phone.as_str(), q)
    }

    /// Searches course cards with a free-text query. The query is trimmed
    /// and lowercased — both deliberately ASCII-only, so characters
    /// outside the ASCII range pass through — and the joined fields are
    /// matched as stored, so the match is case-sensitive against the raw
    /// row data. The four joined tables are read in full, and the cards
    /// come back in course storage order.
    pub fn search_courses(&self, query: String) -> (r: Result<
        Vec<(Course, TeacherAccount, Department, User)>,
        ServerError,
    >)
        ensures
            match r {
                Ok(rows) => rows.deep_view() == joined_cards(
                    self.db@.courses,
                    self.db@.teacher_accounts,
                    self.db@.departments,
                    self.db@.users,
                    lower_seq(trimmed(query@)),
                ),
                Err(_) => false,
            },
    {
        let trimmed_query = trim(query.as_str());
        let q = to_lower(trimmed_query.as_str());
        let n = self.db.courses.len();
        let mut joined: Vec<(Course, TeacherAccount, Department, User)> = Vec::new();
        let mut i: usize = 0;
        while i < n
            invariant
                n == self.db.courses@.len(),
                i <= n,
                q@ == lower_seq(trimmed(query@)),
                joined.deep_view() == joined_cards(
                    self.db@.courses.subrange(0, i as int),
                    self.db@.teacher_accounts,
                    self.db@.departments,
                    self.db@.users,
                    q@,
                ),
            decreases n - i,
        {
            proof {
                let dv = self.db@.courses;
                assert(dv[i as int] == self.db.courses@[i as int]@);
                assert(dv.subrange(0, i + 1).drop_last() =~= dv.subrange(0, i as int));
                assert(dv.subrange(0, i + 1).last() == dv[i as int]);
            }
            let course = &self.db.courses[i];
            match find_teacher(&self.db.teacher_accounts, course.teacher_id) {
                Some(teacher) => {
                    match find_department(&self.db.departments, teacher.dept_id) {
                        Some(department) => {
                            match find_user(&self.db.users, teacher.teacher_id) {
                                Some(user) => {
                                    if self.did_query_match(
                                        &q,
                                        course,
                                        &teacher,
                                        &department,
                                        &user,
                                    ) {
                                        joined.push((course.clone(), teacher, department, user));
                                        assert(joined.deep_view() =~= joined_cards(
                                            self.db@.courses.subrange(0, i + 1),
                                            self.db@.teacher_accounts,
                                            self.db@.departments,
                                            self.db@.users,
                                            q@,
                                        ));
                                    }
                                },
                                None => {},
                            }
                        },
                        None => {},
                    }
                },
                None => {},
            }
            i += 1;
        }
        proof {
            assert(self.db@.courses.subrange(0, n as int) =~= self.db@.courses);
        }
        Ok(joined)
    }

    /// Searches users with a free-text query, matched verbatim against
    /// username, email, phone and the decimal id. The whole table is
    /// fetched with the match-all predicate under the `Or` combinator and
    /// the narrow matching happens here.
    pub fn search_users(&self, query: String) -> (r: Result<Vec<User>, ServerError>)
        ensures
            match r {
                Ok(us) => us.deep_view() == searched_users(self.db@.users, query@),
                Err(_) => false,
            },
    {
        let fs = vec![Filter::Users(UsersFilter::All)];
        let ghost fsv = fs@;
        let found = match self.db.find(Table::Users, fs, Some(Associativity::Or)) {
            Ok(v) => v,
            Err(_) => {
                return Err(ServerError::Storage);
            },
        };
        proof {
            lemma_selected_wrap(self.db@.users, fsv, Some(Associativity::Or));
            assert(fsv =~= seq![Filter::Users(UsersFilter::All)]);
            lemma_filtered_match_all(self.db@.users, Some(Associativity::Or));
        }
        let n = found.len();
        let mut out: Vec<User> = Vec::new();
        let mut i: usize = 0;
        while i < n
            invariant
                n == found@.len(),
                found.deep_view() == selected_users(
                    self.db@.users,
                    fsv,
                    Some(Associativity::Or),
                ),
                fsv == seq![Filter::Users(UsersFilter::All)],
                n == self.db@.users.len(),
                forall|j: int|
                    0 <= j < n ==> selected_users(self.db@.users, fsv, Some(Associativity::Or))[j]
                        == EntityView::User(#[trigger] self.db@.users[j]),
                i <= n,
                out.deep_view() == searched_users(self.db@.users.subrange(0, i as int), query@),
            decreases n - i,
        {
            proof {
                let dv = self.db@.users;
                assert(found.deep_view()[i as int] == found@[i as int]@);
                assert(dv.subrange(0, i + 1).drop_last() =~= dv.subrange(0, i as int));
                assert(dv.subrange(0, i + 1).last() == dv[i as int]);
                assert(found@[i as int] is User) by {
                    match found@[i as int] {
                        ReceiverType::User(_) => {},
                        ReceiverType::StudentAccount(_) => {
                            assert(found@[i as int]@ is StudentAccount);
                        },
                        ReceiverType::TeacherAccount(_) => {
                            assert(found@[i as int]@ is TeacherAccount);
                        },
                        ReceiverType::Course(_) => {
                            assert(found@[i as int]@ is Course);
                        },
                        ReceiverType::StudentCourse(_) => {
                            assert(found@[i as int]@ is StudentCourse);
                        },
                        ReceiverType::Department(_) => {
                            assert(found@[i as int]@ is Department);
                        },
                    }
                }
            }
            match &found[i] {
                ReceiverType::User(u) => {
                    let user_id = i32_to_string(u.id);
                    let hit = contains_sub(u.username.as_str(), query.as_str()) || contains_sub(
                        u.email.as_str(),
                        query.as_str(),
                    ) || contains_sub(u.phone.as_str(), query.as_str()) || contains_sub(
                        user_id.as_str(),
                        query.as_str(),
                    );
                    if hit {
                        out.push(u.clone());
                    }
                },
                _ => {
                    proof {
                        assert(false);
                    }
                },
            }
            i += 1;
        }
        proof {
            assert(self.db@.users.subrange(0, n as int) =~= self.db@.users);
        }
        Ok(out)
    }
}

} // verus!
