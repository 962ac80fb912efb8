//! Mutating operations of the session service: course registration,
//! removal and update, enrollment and drop, suspension, role assignment
//! and account deletion, each gated by the fixed permission matrix and
//! all-or-nothing over its batch.

use vstd::prelude::*;
use crate::clock::current_month;
use crate::clock::semester_for;
use crate::clock::semester_of_month;
use crate::connection::ServerConnection;
use crate::connection::ServerError;
use crate::db_driver::apply_all;
use crate::db_driver::delete_one;
use crate::db_driver::lemma_apply_singleton;
use crate::db_driver::update_one;
use crate::db_driver::DbView;
use crate::models::Action;
use crate::models::Course;
use crate::models::CourseView;
use crate::models::EntityView;
use crate::models::ReceiverType;
use crate::models::Role;
use crate::models::StudentAccount;
use crate::models::StudentAccountView;
use crate::models::StudentCourse;
use crate::models::StudentCourseView;
use crate::models::TeacherAccount;
use crate::models::TeacherAccountView;
use crate::models::User;
use crate::models::UserView;
use crate::models::parse_role;
use crate::models::role_of;
use crate::queries::lemma_filtered_id;
use crate::queries::users_with_id;
use crate::filters::Filter;
use crate::filters::UsersFilter;
use crate::strings::str_eq;

verus! {

/// Every course of the batch belongs to the given owner.
pub open spec fn all_owned(cs: Seq<CourseView>, owner: i32) -> bool {
    forall|i: int| 0 <= i < cs.len() ==> (#[trigger] cs[i]).teacher_id == owner
}

/// The permission rule for course mutations: an administrator may act on
/// any batch; a teacher only on a batch of courses they all own,
/// rejected whole otherwise; everyone else is denied; and a session is
/// required first.
pub open spec fn course_mutation_error(sess: Option<UserView>, cs: Seq<CourseView>) -> Option<
    ServerError,
> {
    match sess {
        None => Some(ServerError::MustBeSignedIn),
        Some(u) => match role_of(u.role) {
            Role::Admin => None,
            Role::Teacher => if all_owned(cs, u.id) {
                None
            } else {
                Some(ServerError::NotOwner)
            },
            _ => Some(ServerError::NotPermitted),
        },
    }
}

/// The permission rule for administrator-only operations.
pub open spec fn admin_gate(sess: Option<UserView>) -> Option<ServerError> {
    match sess {
        None => Some(ServerError::MustBeSignedIn),
        Some(u) => if role_of(u.role) == Role::Admin {
            None
        } else {
            Some(ServerError::NotPermitted)
        },
    }
}

/// The permission rule for student-only operations.
pub open spec fn student_gate(sess: Option<UserView>) -> Option<ServerError> {
    match sess {
        None => Some(ServerError::MustBeSignedIn),
        Some(u) => if role_of(u.role) == Role::Student {
            None
        } else {
            Some(ServerError::NotPermitted)
        },
    }
}

/// The permission rule for deleting an account: an administrator may
/// delete anyone but themselves; everyone else only themselves.
pub open spec fn delete_user_error(sess: Option<UserView>, target: UserView) -> Option<
    ServerError,
> {
    match sess {
        None => Some(ServerError::MustBeSignedIn),
        Some(u) => if role_of(u.role) == Role::Admin {
            if target.id == u.id {
                Some(ServerError::CannotDeleteSelf)
            } else {
                None
            }
        } else {
            if target.id == u.id {
                None
            } else {
                Some(ServerError::NotPermitted)
            }
        },
    }
}

/// The permission rule for updating an account: an administrator may
/// rewrite any existing user; everyone else only themselves, and only
/// with username, suspension, verification and role left as stored.
pub open spec fn update_user_error(
    sess: Option<UserView>,
    users: Seq<UserView>,
    u: UserView,
) -> Option<ServerError> {
    match sess {
        None => Some(ServerError::MustBeSignedIn),
        Some(su) => if role_of(su.role) == Role::Admin {
            if users_with_id(users, u.id).len() == 0 {
                Some(ServerError::UserNotFound)
            } else {
                None
            }
        } else {
            if u.id != su.id {
                Some(ServerError::NotPermitted)
            } else {
                let m = users_with_id(users, u.id);
                if m.len() == 0 {
                    Some(ServerError::UserNotFound)
                } else if u.username != m[0].username {
                    Some(ServerError::ImmutableUsername)
                } else if u.suspended != m[0].suspended {
                    Some(ServerError::ImmutableSuspended)
                } else if u.verified != m[0].verified {
                    Some(ServerError::ImmutableVerified)
                } else if u.role != m[0].role {
                    Some(ServerError::ImmutableRole)
                } else {
                    None
                }
            }
        },
    }
}

/// The permission and validity rule for role assignment.
pub open spec fn set_role_error(sess: Option<UserView>, role: Seq<char>) -> Option<ServerError> {
    match sess {
        None => Some(ServerError::MustBeSignedIn),
        Some(u) => if role_of(u.role) != Role::Admin {
            Some(ServerError::NotPermitted)
        } else if role_of(role) == Role::Unknown {
            Some(ServerError::InvalidRole)
        } else {
            None
        },
    }
}

/// A course batch wrapped into the storage envelope.
pub open spec fn wrap_courses(cs: Seq<CourseView>) -> Seq<EntityView> {
    cs.map_values(|c: CourseView| EntityView::Course(c))
}

/// The enrollment derived for one course: owned by the student, not yet
/// graded, stamped with the semester of the enrollment month.
pub open spec fn enrollment_of(c: CourseView, student_id: i32, month: u32) -> StudentCourseView {
    StudentCourseView {
        student_id: student_id,
        course_id: c.id,
        grade: (-1) as i32,
        semester: semester_of_month(month),
    }
}

/// The enrollments derived for a course batch, wrapped into the envelope.
pub open spec fn wrap_enrollments(cs: Seq<CourseView>, student_id: i32, month: u32) -> Seq<
    EntityView,
> {
    cs.map_values(|c: CourseView| EntityView::StudentCourse(enrollment_of(c, student_id, month)))
}

/// The student-account rows that do not belong to one user.
pub open spec fn without_student_of(rows: Seq<StudentAccountView>, student_id: i32) -> Seq<
    StudentAccountView,
>
    decreases rows.len(),
{
    if rows.len() == 0 {
        Seq::empty()
    } else {
        let rest = without_student_of(rows.drop_last(), student_id);
        if rows.last().student_id == student_id {
            rest
        } else {
            rest.push(rows.last())
        }
    }
}

/// The teacher-account rows that do not belong to one user.
pub open spec fn without_teacher_of(rows: Seq<TeacherAccountView>, teacher_id: i32) -> Seq<
    TeacherAccountView,
>
    decreases rows.len(),
{
    if rows.len() == 0 {
        Seq::empty()
    } else {
        let rest = without_teacher_of(rows.drop_last(), teacher_id);
        if rows.last().teacher_id == teacher_id {
            rest
        } else {
            rest.push(rows.last())
        }
    }
}

/// The fresh satellite row for a user who becomes a student.
pub open spec fn default_student_account(id: i32) -> StudentAccountView {
    StudentAccountView {
        id: id,
        student_id: id,
        advisor_id: 0,
        discipline: Seq::empty(),
        enrollment: Seq::empty(),
        cgpa: 0,
        can_grad: false,
        cur_credit: 0,
        cum_credit: 0,
    }
}

/// The fresh satellite row for a user who becomes a teacher.
pub open spec fn default_teacher_account(id: i32) -> TeacherAccountView {
    TeacherAccountView { id: id, teacher_id: id, dept_id: 0, dept: Seq::empty() }
}

/// The store after a role assignment: the user row rewritten with the
/// new role, both stale satellite rows cleared, and the satellite for
/// the new role created with default fields.
pub open spec fn after_set_role(s: DbView, target: UserView, role: Seq<char>) -> DbView {
    let cleared_students = without_student_of(s.student_accounts, target.id);
    let cleared_teachers = without_teacher_of(s.teacher_accounts, target.id);
    DbView {
        users: update_one(s, EntityView::User(UserView { role: role, ..target })).users,
        student_accounts: if role_of(role) == Role::Student {
            cleared_students.push(default_student_account(target.id))
        } else {
            cleared_students
        },
        teacher_accounts: if role_of(role) == Role::Teacher {
            cleared_teachers.push(default_teacher_account(target.id))
        } else {
            cleared_teachers
        },
        courses: s.courses,
        student_courses: s.student_courses,
        departments: s.departments,
    }
}

/// Decides batch ownership.
fn all_owned_by(courses: &Vec<Course>, owner: i32) -> (r: bool)
    ensures
        r == all_owned(courses.deep_view(), owner),
{
    let mut i: usize = 0;
    while i < courses.len()
        invariant
            i <= courses@.len(),
            forall|j: int| 0 <= j < i ==> (#[trigger] courses.deep_view()[j]).teacher_id == owner,
        decreases courses@.len() - i,
    {
        if courses[i].teacher_id != owner {
            assert(courses.deep_view()[i as int].teacher_id != owner);
            return false;
        }
        proof {
            assert(courses.deep_view()[i as int] == courses@[i as int]@);
        }
        i += 1;
    }
    true
}

/// Wraps a course batch into the storage envelope.
fn wrap_courses_exec(courses: &Vec<Course>) -> (r: Vec<ReceiverType>)
    ensures
        r.deep_view() == wrap_courses(courses.deep_view()),
{
    let mut out: Vec<ReceiverType> = Vec::new();
    let mut i: usize = 0;
    while i < courses.len()
        invariant
            i <= courses@.len(),
            out@.len() == i,
            forall|j: int|
                0 <= j < i ==> out@[j]@ == EntityView::Course(#[trigger] courses.deep_view()[j]),
        decreases courses@.len() - i,
    {
        proof {
            assert(courses.deep_view()[i as int] == courses@[i as int]@);
        }
        out.push(ReceiverType::Course(courses[i].clone()));
        i += 1;
    }
    assert(out.deep_view() =~= wrap_courses(courses.deep_view()));
    out
}

/// Derives and wraps the enrollments of a course batch.
fn wrap_enrollments_exec(courses: &Vec<Course>, student_id: i32, month: u32) -> (r: Vec<
    ReceiverType,
>)
    ensures
        r.deep_view() == wrap_enrollments(courses.deep_view(), student_id, month),
{
    let mut out: Vec<ReceiverType> = Vec::new();
    let mut i: usize = 0;
    while i < courses.len()
        invariant
            i <= courses@.len(),
            out@.len() == i,
            forall|j: int|
                0 <= j < i ==> out@[j]@ == EntityView::StudentCourse(
                    enrollment_of(#[trigger] courses.deep_view()[j], student_id, month),
                ),
        decreases courses@.len() - i,
    {
        proof {
            assert(courses.deep_view()[i as int] == courses@[i as int]@);
        }
        let record = StudentCourse {
            student_id: student_id,
            course_id: courses[i].id,
            grade: -1,
            semester: semester_for(month),
        };
        out.push(ReceiverType::StudentCourse(record));
        i += 1;
    }
    assert(out.deep_view() =~= wrap_enrollments(courses.deep_view(), student_id, month));
    out
}

/// Clears the student satellite rows of one user.
fn remove_student_accounts_of(rows: &mut Vec<StudentAccount>, student_id: i32)
    ensures
        final(rows).deep_view() == without_student_of(old(rows).deep_view(), student_id),
{
    let n = rows.len();
    let mut out: Vec<StudentAccount> = Vec::new();
    let mut j: usize = 0;
    while j < n
        invariant
            n == rows@.len(),
            j <= n,
            out.deep_view() == without_student_of(rows.deep_view().subrange(0, j as int), student_id),
        decreases n - j,
    {
        proof {
            let dv = rows.deep_view();
            assert(dv[j as int] == rows@[j as int]@);
            assert(dv.subrange(0, j + 1).drop_last() =~= dv.subrange(0, j as int));
            assert(dv.subrange(0, j + 1).last() == dv[j as int]);
        }
        if rows[j].student_id != student_id {
            out.push(rows[j].clone());
        }
        j += 1;
    }
    proof {
        assert(rows.deep_view().subrange(0, n as int) =~= rows.deep_view());
    }
    *rows = out;
}

/// Clears the teacher satellite rows of one user.
fn remove_teacher_accounts_of(rows: &mut Vec<TeacherAccount>, teacher_id: i32)
    ensures
        final(rows).deep_view() == without_teacher_of(old(rows).deep_view(), teacher_id),
{
    let n = rows.len();
    let mut out: Vec<TeacherAccount> = Vec::new();
    let mut j: usize = 0;
    while j < n
        invariant
            n == rows@.len(),
            j <= n,
            out.deep_view() == without_teacher_of(rows.deep_view().subrange(0, j as int), teacher_id),
        decreases n - j,
    {
        proof {
            let dv = rows.deep_view();
            assert(dv[j as int] == rows@[j as int]@);
            assert(dv.subrange(0, j + 1).drop_last() =~= dv.subrange(0, j as int));
            assert(dv.subrange(0, j + 1).last() == dv[j as int]);
        }
        if rows[j].teacher_id != teacher_id {
            out.push(rows[j].clone());
        }
        j += 1;
    }
    proof {
        assert(rows.deep_view().subrange(0, n as int) =~= rows.deep_view());
    }
    *rows = out;
}

impl ServerConnection {
    /// Registers a course batch: an administrator registers any batch, a
    /// teacher only courses carrying their own id — all-or-nothing — and
    /// every other session is denied.
    pub fn register_courses(&mut self, courses: Vec<Course>) -> (r: Result<(), ServerError>)
        ensures
            final(self).session == old(self).session,
            match r {
                Ok(()) => course_mutation_error(old(self).session_view(), courses.deep_view())
                    is None && final(self).db@ == apply_all(
                    old(self).db@,
                    wrap_courses(courses.deep_view()),
                    Action::Insert,
                ),
                Err(e) => Some(e) == course_mutation_error(
                    old(self).session_view(),
                    courses.deep_view(),
                ) && final(self).db == old(self).db,
            },
    {
        let (sid, role) = match &self.session {
            Some(u) => (u.id, parse_role(u.role.as_str())),
            None => {
                return Err(ServerError::MustBeSignedIn);
            },
        };
        match role {
            Role::Admin => {},
            Role::Teacher => {
                if !all_owned_by(&courses, sid) {
                    return Err(ServerError::NotOwner);
                }
            },
            _ => {
                return Err(ServerError::NotPermitted);
            },
        }
        let upcast = wrap_courses_exec(&courses);
        let res = self.db.insert(upcast);
        match res {
            Ok(()) => Ok(()),
            Err(_) => Ok(()),
        }
    }

    /// Removes a course batch by id, under the same permission rule as
    /// registration: all-or-nothing for a teacher, denied below that.
    pub fn remove_courses(&mut self, courses: Vec<Course>) -> (r: Result<(), ServerError>)
        ensures
            final(self).session == old(self).session,
            match r {
                Ok(()) => course_mutation_error(old(self).session_view(), courses.deep_view())
                    is None && final(self).db@ == apply_all(
                    old(self).db@,
                    wrap_courses(courses.deep_view()),
                    Action::Delete,
                ),
                Err(e) => Some(e) == course_mutation_error(
                    old(self).session_view(),
                    courses.deep_view(),
                ) && final(self).db == old(self).db,
            },
    {
        let (sid, role) = match &self.session {
            Some(u) => (u.id, parse_role(u.role.as_str())),
            None => {
                return Err(ServerError::MustBeSignedIn);
            },
        };
        match role {
            Role::Admin => {},
            Role::Teacher => {
                if !all_owned_by(&courses, sid) {
                    return Err(ServerError::NotOwner);
                }
            },
            _ => {
                return Err(ServerError::NotPermitted);
            },
        }
        let upcast = wrap_courses_exec(&courses);
        let res = self.db.delete(upcast);
        match res {
            Ok(()) => Ok(()),
            Err(_) => Ok(()),
        }
    }

    /// Rewrites a course batch by id, under the same permission rule as
    /// registration: all-or-nothing for a teacher, denied below that.
    pub fn update_courses(&mut self, courses: Vec<Course>) -> (r: Result<(), ServerError>)
        ensures
            final(self).session == old(self).session,
            match r {
                Ok(()) => course_mutation_error(old(self).session_view(), courses.deep_view())
                    is None && final(self).db@ == apply_all(
                    old(self).db@,
                    wrap_courses(courses.deep_view()),
                    Action::Update,
                ),
                Err(e) => Some(e) == course_mutation_error(
                    old(self).session_view(),
                    courses.deep_view(),
                ) && final(self).db == old(self).db,
            },
    {
        let (sid, role) = match &self.session {
            Some(u) => (u.id, parse_role(u.role.as_str())),
            None => {
                return Err(ServerError::MustBeSignedIn);
            },
        };
        match role {
            Role::Admin => {},
            Role::Teacher => {
                if !all_owned_by(&courses, sid) {
                    return Err(ServerError::NotOwner);
                }
            },
            _ => {
                return Err(ServerError::NotPermitted);
            },
        }
        let upcast = wrap_courses_exec(&courses);
        let res = self.db.update(upcast);
        match res {
            Ok(()) => Ok(()),
            Err(_) => Ok(()),
        }
    }

    /// Enrolls the signed-in student in a course batch as of a given
    /// calendar month: each enrollment carries the student's own id, the
    /// not-yet-graded sentinel and the semester of that month.
    pub fn enroll_courses_at(&mut self, courses: Vec<Course>, month: u32) -> (r: Result<
        (),
        ServerError,
    >)
        ensures
            final(self).session == old(self).session,
            match r {
                Ok(()) => student_gate(old(self).session_view()) is None && (old(self).session_view() matches Some(su) && final(self).db@ == apply_all(
                    old(self).db@,
                    wrap_enrollments(courses.deep_view(), su.id, month),
                    Action::Insert,
                )),
                Err(e) => Some(e) == student_gate(old(self).session_view()) && final(self).db
                    == old(self).db,
            },
    {
        let (sid, role) = match &self.session {
            Some(u) => (u.id, parse_role(u.role.as_str())),
            None => {
                return Err(ServerError::MustBeSignedIn);
            },
        };
        match role {
            Role::Student => {},
            _ => {
                return Err(ServerError::NotPermitted);
            },
        }
        let upcast = wrap_enrollments_exec(&courses, sid, month);
        let res = self.db.insert(upcast);
        match res {
            Ok(()) => Ok(()),
            Err(_) => Ok(()),
        }
    }

    /// Enrolls the signed-in student in a course batch as of the current
    /// calendar month.
    pub fn enroll_courses(&mut self, courses: Vec<Course>) -> (r: Result<(), ServerError>)
        ensures
            final(self).session == old(self).session,
            match r {
                Ok(()) => student_gate(old(self).session_view()) is None && (old(self).session_view() matches Some(su) && (exists|m: u32|
                    1 <= m <= 12 && final(self).db@ == apply_all(
                        old(self).db@,
                        #[trigger] wrap_enrollments(courses.deep_view(), su.id, m),
                        Action::Insert,
                    ))),
                Err(e) => Some(e) == student_gate(old(self).session_view()) && final(self).db
                    == old(self).db,
            },
    {
        let ghost cdv = courses.deep_view();
        let month = current_month();
        let result = self.enroll_courses_at(courses, month);
        proof {
            match result {
                Ok(()) => {
                    match old(self).session_view() {
                        Some(su) => {
                            assert(1 <= month <= 12 && self.db@ == apply_all(
                                old(self).db@,
                                wrap_enrollments(cdv, su.id, month),
                                Action::Insert,
                            ));
                        },
                        None => {},
                    }
                },
                Err(_) => {},
            }
        }
        result
    }

    /// Drops the signed-in student's enrollments for a course batch; the
    /// enrollment keys decide what is removed.
    pub fn drop_courses(&mut self, courses: Vec<Course>) -> (r: Result<(), ServerError>)
        ensures
            final(self).session == old(self).session,
            match r {
                Ok(()) => student_gate(old(self).session_view()) is None && (old(self).session_view() matches Some(su) && (exists|m: u32|
                    1 <= m <= 12 && final(self).db@ == apply_all(
                        old(self).db@,
                        #[trigger] wrap_enrollments(courses.deep_view(), su.id, m),
                        Action::Delete,
                    ))),
                Err(e) => Some(e) == student_gate(old(self).session_view()) && final(self).db
                    == old(self).db,
            },
    {
        let (sid, role) = match &self.session {
            Some(u) => (u.id, parse_role(u.role.as_str())),
            None => {
                return Err(ServerError::MustBeSignedIn);
            },
        };
        match role {
            Role::Student => {},
            _ => {
                return Err(ServerError::NotPermitted);
            },
        }
        let ghost cdv = courses.deep_view();
        let month = current_month();
        let upcast = wrap_enrollments_exec(&courses, sid, month);
        let res = self.db.delete(upcast);
        proof {
            match old(self).session_view() {
                Some(su) => {
                    assert(su.id == sid);
                    assert(1 <= month <= 12 && self.db@ == apply_all(
                        old(self).db@,
                        wrap_enrollments(cdv, su.id, month),
                        Action::Delete,
                    ));
                },
                None => {},
            }
        }
        match res {
            Ok(()) => Ok(()),
            Err(_) => Ok(()),
        }
    }

    /// Marks a user suspended: administrators only. The target row is
    /// rewritten from the record supplied, with the suspension flag set;
    /// suspending an already-suspended user succeeds and leaves the flag
    /// set.
    pub fn suspend_user(&mut self, user: User) -> (r: Result<(), ServerError>)
        ensures
            final(self).session == old(self).session,
            match r {
                Ok(()) => admin_gate(old(self).session_view()) is None && final(self).db@
                    == update_one(
                    old(self).db@,
                    EntityView::User(UserView { suspended: true, ..user@ }),
                ),
                Err(e) => Some(e) == admin_gate(old(self).session_view()) && final(self).db == old(self).db,
            },
    {
        let role = match &self.session {
            Some(u) => parse_role(u.role.as_str()),
            None => {
                return Err(ServerError::MustBeSignedIn);
            },
        };
        match role {
            Role::Admin => {},
            _ => {
                return Err(ServerError::NotPermitted);
            },
        }
        let ghost uv = user@;
        let updated = User {
            id: user.id,
            username: user.username,
            password: user.password,
            email: user.email,
            phone: user.phone,
            verified: user.verified,
            suspended: true,
            forcenewpw: user.forcenewpw,
            role: user.role,
        };
        proof {
            assert(updated@ =~= UserView { suspended: true, ..uv });
        }
        let ghost before = self.db@;
        let ghost ev = EntityView::User(updated@);
        let entities = vec![ReceiverType::User(updated)];
        proof {
            assert(entities.deep_view() =~= seq![ev]);
        }
        let res = self.db.update(entities);
        proof {
            lemma_apply_singleton(before, ev, Action::Update);
        }
        match res {
            Ok(()) => Ok(()),
            Err(_) => Ok(()),
        }
    }

    /// Clears a user's suspension: administrators only. The target row is
    /// rewritten from the record supplied, with the suspension flag
    /// cleared.
    pub fn unsuspend_user(&mut self, user: User) -> (r: Result<(), ServerError>)
        ensures
            final(self).session == old(self).session,
            match r {
                Ok(()) => admin_gate(old(self).session_view()) is None && final(self).db@
                    == update_one(
                    old(self).db@,
                    EntityView::User(UserView { suspended: false, ..user@ }),
                ),
                Err(e) => Some(e) == admin_gate(old(self).session_view()) && final(self).db == old(self).db,
            },
    {
        let role = match &self.session {
            Some(u) => parse_role(u.role.as_str()),
            None => {
                return Err(ServerError::MustBeSignedIn);
            },
        };
        match role {
            Role::Admin => {},
            _ => {
                return Err(ServerError::NotPermitted);
            },
        }
        let ghost uv = user@;
        let updated = User {
            id: user.id,
            username: user.username,
            password: user.password,
            email: user.email,
            phone: user.phone,
            verified: user.verified,
            suspended: false,
            forcenewpw: user.forcenewpw,
            role: user.role,
        };
        proof {
            assert(updated@ =~= UserView { suspended: false, ..uv });
        }
        let ghost before = self.db@;
        let ghost ev = EntityView::User(updated@);
        let entities = vec![ReceiverType::User(updated)];
        proof {
            assert(entities.deep_view() =~= seq![ev]);
        }
        let res = self.db.update(entities);
        proof {
            lemma_apply_singleton(before, ev, Action::Update);
        }
        match res {
            Ok(()) => Ok(()),
            Err(_) => Ok(()),
        }
    }

    /// Assigns a role: administrators only, and only one of the three
    /// known roles. The user row is rewritten with the new role string,
    /// both stale satellite rows of the user are cleared, and the
    /// satellite of the new role is created with default fields, all in
    /// one operation.
    pub fn set_user_role(&mut self, user: User, role: &str) -> (r: Result<(), ServerError>)
        ensures
            final(self).session == old(self).session,
            match r {
                Ok(()) => set_role_error(old(self).session_view(), role@) is None && final(self).db@
                    == after_set_role(old(self).db@, user@, role@),
                Err(e) => Some(e) == set_role_error(old(self).session_view(), role@) && final(self).db == old(self).db,
            },
    {
        let sess_role = match &self.session {
            Some(u) => parse_role(u.role.as_str()),
            None => {
                return Err(ServerError::MustBeSignedIn);
            },
        };
        match sess_role {
            Role::Admin => {},
            _ => {
                return Err(ServerError::NotPermitted);
            },
        }
        let new_role = parse_role(role);
        match new_role {
            Role::Unknown => {
                return Err(ServerError::InvalidRole);
            },
            _ => {},
        }
        let ghost uv = user@;
        let target_id = user.id;
        let updated = User {
            id: user.id,
            username: user.username,
            password: user.password,
            email: user.email,
            phone: user.phone,
            verified: user.verified,
            suspended: user.suspended,
            forcenewpw: user.forcenewpw,
            role: role.to_owned(),
        };
        proof {
            assert(updated@ =~= UserView { role: role@, ..uv });
        }
        let ghost before = self.db@;
        let ghost ev = EntityView::User(updated@);
        let entities = vec![ReceiverType::User(updated)];
        proof {
            assert(entities.deep_view() =~= seq![ev]);
        }
        let res = self.db.update(entities);
        proof {
            lemma_apply_singleton(before, ev, Action::Update);
        }
        remove_student_accounts_of(&mut self.db.student_accounts, target_id);
        remove_teacher_accounts_of(&mut self.db.teacher_accounts, target_id);
        match new_role {
            Role::Student => {
                let satellite = StudentAccount {
                    id: target_id,
                    student_id: target_id,
                    advisor_id: 0,
                    discipline: String::new(),
                    enrollment: String::new(),
                    cgpa: 0,
                    can_grad: false,
                    cur_credit: 0,
                    cum_credit: 0,
                };
                proof {
                    assert(satellite@ =~= default_student_account(target_id));
                }
                self.db.student_accounts.push(satellite);
            },
            Role::Teacher => {
                let satellite = TeacherAccount {
                    id: target_id,
                    teacher_id: target_id,
                    dept_id: 0,
                    dept: String::new(),
                };
                proof {
                    assert(satellite@ =~= default_teacher_account(target_id));
                }
                self.db.teacher_accounts.push(satellite);
            },
            _ => {},
        }
        proof {
            assert(self.db.student_accounts.deep_view() =~= after_set_role(
                before,
                uv,
                role@,
            ).student_accounts);
            assert(self.db.teacher_accounts.deep_view() =~= after_set_role(
                before,
                uv,
                role@,
            ).teacher_accounts);
            assert(self.db@ =~= after_set_role(before, uv, role@));
        }
        match res {
            Ok(()) => Ok(()),
            Err(_) => Ok(()),
        }
    }

    /// Deletes a user row: an administrator deletes any account but
    /// their own; every other session only its own account.
    pub fn delete_user(&mut self, user: User) -> (r: Result<(), ServerError>)
        ensures
            final(self).session == old(self).session,
            match r {
                Ok(()) => delete_user_error(old(self).session_view(), user@) is None && final(self).db@ == delete_one(old(self).db@, EntityView::User(user@)),
                Err(e) => Some(e) == delete_user_error(old(self).session_view(), user@) && final(self).db == old(self).db,
            },
    {
        let (sid, role) = match &self.session {
            Some(u) => (u.id, parse_role(u.role.as_str())),
            None => {
                return Err(ServerError::MustBeSignedIn);
            },
        };
        match role {
            Role::Admin => {
                if user.id == sid {
                    return Err(ServerError::CannotDeleteSelf);
                }
            },
            _ => {
                if user.id != sid {
                    return Err(ServerError::NotPermitted);
                }
            },
        }
        let ghost uv = user@;
        let ghost before = self.db@;
        let ghost ev = EntityView::User(uv);
        let entities = vec![ReceiverType::User(user)];
        proof {
            assert(entities.deep_view() =~= seq![ev]);
        }
        let res = self.db.delete(entities);
        proof {
            lemma_apply_singleton(before, ev, Action::Delete);
        }
        match res {
            Ok(()) => Ok(()),
            Err(_) => Ok(()),
        }
    }

    /// Rewrites a user row: an administrator rewrites any existing user;
    /// every other session only its own row, with username, suspension,
    /// verification and role left exactly as stored.
    pub fn update_user(&mut self, user: User) -> (r: Result<(), ServerError>)
        ensures
            final(self).session == old(self).session,
            match r {
                Ok(()) => update_user_error(old(self).session_view(), old(self).db@.users, user@)
                    is None && final(self).db@ == update_one(
                    old(self).db@,
                    EntityView::User(user@),
                ),
                Err(e) => Some(e) == update_user_error(
                    old(self).session_view(),
                    old(self).db@.users,
                    user@,
                ) && final(self).db == old(self).db,
            },
    {
        let role = match &self.session {
            Some(u) => parse_role(u.role.as_str()),
            None => {
                return Err(ServerError::MustBeSignedIn);
            },
        };
        match role {
            Role::Admin => self.update_user_as_admin(user),
            _ => self.update_user_as_student(user),
        }
    }

    /// The administrator path of a user update: the target must exist.
    fn update_user_as_admin(&mut self, user: User) -> (r: Result<(), ServerError>)
        requires
            old(self).session_view() matches Some(su) && role_of(su.role) == Role::Admin,
        ensures
            final(self).session == old(self).session,
            match r {
                Ok(()) => update_user_error(old(self).session_view(), old(self).db@.users, user@)
                    is None && final(self).db@ == update_one(
                    old(self).db@,
                    EntityView::User(user@),
                ),
                Err(e) => Some(e) == update_user_error(
                    old(self).session_view(),
                    old(self).db@.users,
                    user@,
                ) && final(self).db == old(self).db,
            },
    {
        let fs = vec![Filter::Users(UsersFilter::Id(user.id))];
        let ghost fsv = fs@;
        let found = match self.get_users_by_filters(fs) {
            Ok(v) => v,
            Err(e) => {
                return Err(e);
            },
        };
        proof {
            assert(fsv =~= seq![Filter::Users(UsersFilter::Id(user@.id))]);
            lemma_filtered_id(self.db@.users, user@.id);
        }
        if found.len() == 0 {
            return Err(ServerError::UserNotFound);
        }
        let ghost uv = user@;
        let ghost before = self.db@;
        let ghost ev = EntityView::User(uv);
        let entities = vec![ReceiverType::User(user)];
        proof {
            assert(entities.deep_view() =~= seq![ev]);
        }
        let res = self.db.update(entities);
        proof {
            lemma_apply_singleton(before, ev, Action::Update);
        }
        match res {
            Ok(()) => Ok(()),
            Err(_) => Ok(()),
        }
    }

    /// The non-administrator path of a user update: self only, with the
    /// immutable fields checked against the stored row.
    fn update_user_as_student(&mut self, user: User) -> (r: Result<(), ServerError>)
        requires
            old(self).session_view() matches Some(su) && role_of(su.role) != Role::Admin,
        ensures
            final(self).session == old(self).session,
            match r {
                Ok(()) => update_user_error(old(self).session_view(), old(self).db@.users, user@)
                    is None && final(self).db@ == update_one(
                    old(self).db@,
                    EntityView::User(user@),
                ),
                Err(e) => Some(e) == update_user_error(
                    old(self).session_view(),
                    old(self).db@.users,
                    user@,
                ) && final(self).db == old(self).db,
            },
    {
        let sid = match &self.session {
            Some(u) => u.id,
            None => {
                return Err(ServerError::MustBeSignedIn);
            },
        };
        if user.id != sid {
            return Err(ServerError::NotPermitted);
        }
        let fs = vec![Filter::Users(UsersFilter::Id(user.id))];
        let ghost fsv = fs@;
        let found = match self.get_users_by_filters(fs) {
            Ok(v) => v,
            Err(e) => {
                return Err(e);
            },
        };
        proof {
            assert(fsv =~= seq![Filter::Users(UsersFilter::Id(user@.id))]);
            lemma_filtered_id(self.db@.users, user@.id);
        }
        if found.len() == 0 {
            return Err(ServerError::UserNotFound);
        }
        let stored = &found[0];
        proof {
            assert(found@[0]@ == users_with_id(self.db@.users, user@.id)[0]);
        }
        if !str_eq(user.username.as_str(), stored.username.as_str()) {
            return Err(ServerError::ImmutableUsername);
        }
        if user.suspended != stored.suspended {
            return Err(ServerError::ImmutableSuspended);
        }
        if user.verified != stored.verified {
            return Err(ServerError::ImmutableVerified);
        }
        if !str_eq(user.role.as_str(), stored.role.as_str()) {
            return Err(ServerError::ImmutableRole);
        }
        let ghost uv = user@;
        let ghost before = self.db@;
        let ghost ev = EntityView::User(uv);
        let entities = vec![ReceiverType::User(user)];
        proof {
            assert(entities.deep_view() =~= seq![ev]);
        }
        let res = self.db.update(entities);
        proof {
            lemma_apply_singleton(before, ev, Action::Update);
        }
        match res {
            Ok(()) => Ok(()),
            Err(_) => Ok(()),
        }
    }
}

} // verus!
