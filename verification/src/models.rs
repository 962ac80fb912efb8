//! Entity model: plain records for users, satellite accounts, courses,
//! enrollments and departments, the tagged-union envelope that lets
//! heterogeneous entities flow through one storage pipeline, and the
//! closed role enum resolved at the session boundary.
//!
//! Every record type carries a ghost mirror (`UserView` and so on) so that
//! contracts can speak about stored data independently of which clone of a
//! record they hold.

use vstd::prelude::*;
use vstd::string::StringExecFns;
use crate::strings::lower_seq;
use crate::strings::to_lower;

verus! {

/// A mutation kind, as named in the SQL intent emitted for the external
/// execution collaborator.
#[derive(Clone, Copy, PartialEq, Eq, Structural, Debug)]
pub enum Action {
    Insert,
    Update,
    Delete,
}

/// A table selector for the storage driver.
#[derive(Clone, Copy, PartialEq, Eq, Structural, Debug)]
pub enum Table {
    Users,
    StudentAccount,
    TeacherAccount,
    Courses,
    StudentCourses,
    Departments,
}

/// The closed set of roles a session can hold. A stored role string that
/// does not name one of the three known roles resolves to `Unknown`, which
/// no privileged branch of the permission matrix accepts.
#[derive(Clone, Copy, PartialEq, Eq, Structural, Debug)]
pub enum Role {
    Admin,
    Teacher,
    Student,
    Unknown,
}

/// Resolves a role string, compared ASCII-case-insensitively, to the
/// closed role enum.
pub open spec fn role_of(role: Seq<char>) -> Role {
    if lower_seq(role) == "admin"@ {
        Role::Admin
    } else if lower_seq(role) == "teacher"@ {
        Role::Teacher
    } else if lower_seq(role) == "student"@ {
        Role::Student
    } else {
        Role::Unknown
    }
}

/// Resolves a role string, compared ASCII-case-insensitively, to the
/// closed role enum.
pub fn parse_role(s: &str) -> (r: Role)
    ensures
        r == role_of(s@),
{
    let low = to_lower(s);
    if low == String::from_str("admin") {
        Role::Admin
    } else if low == String::from_str("teacher") {
        Role::Teacher
    } else if low == String::from_str("student") {
        Role::Student
    } else {
        Role::Unknown
    }
}

#[derive(Debug, PartialEq, Eq)]
/// An account record.
pub struct User {
    pub id: i32,
    pub username: String,
    pub password: String,
    pub email: String,
    pub phone: String,
    pub verified: bool,
    pub suspended: bool,
    pub forcenewpw: bool,
    pub role: String,
}

/// Ghost mirror of [`User`].
#[verifier::ext_equal]
pub ghost struct UserView {
    pub id: i32,
    pub username: Seq<char>,
    pub password: Seq<char>,
    pub email: Seq<char>,
    pub phone: Seq<char>,
    pub verified: bool,
    pub suspended: bool,
    pub forcenewpw: bool,
    pub role: Seq<char>,
}

impl View for User {
    type V = UserView;

    open spec fn view(&self) -> UserView {
        UserView {
            id: self.id,
            username: self.username@,
            password: self.password@,
            email: self.email@,
            phone: self.phone@,
            verified: self.verified,
            suspended: self.suspended,
            forcenewpw: self.forcenewpw,
            role: self.role@,
        }
    }
}

impl DeepView for User {
    type V = UserView;

    open spec fn deep_view(&self) -> UserView {
        self@
    }
}

impl Clone for User {
    fn clone(&self) -> (r: Self)
        ensures
            r@ == self@,
    {
        let r = User {
            id: self.id,
            username: self.username.clone(),
            password: self.password.clone(),
            email: self.email.clone(),
            phone: self.phone.clone(),
            verified: self.verified,
            suspended: self.suspended,
            forcenewpw: self.forcenewpw,
            role: self.role.clone(),
        };
        assert(r@ =~= self@);
        r
    }
}

/// The satellite record of a user with the student role. The cumulative
/// GPA is kept in hundredths, so a value of 250 reads as 2.50.
#[derive(Debug, PartialEq, Eq)]
pub struct StudentAccount {
    pub id: i32,
    pub student_id: i32,
    pub advisor_id: i32,
    pub discipline: String,
    pub enrollment: String,
    pub cgpa: i32,
    pub can_grad: bool,
    pub cur_credit: i32,
    pub cum_credit: i32,
}

/// Ghost mirror of [`StudentAccount`].
#[verifier::ext_equal]
pub ghost struct StudentAccountView {
    pub id: i32,
    pub student_id: i32,
    pub advisor_id: i32,
    pub discipline: Seq<char>,
    pub enrollment: Seq<char>,
    pub cgpa: i32,
    pub can_grad: bool,
    pub cur_credit: i32,
    pub cum_credit: i32,
}

impl View for StudentAccount {
    type V = StudentAccountView;

    open spec fn view(&self) -> StudentAccountView {
        StudentAccountView {
            id: self.id,
            student_id: self.student_id,
            advisor_id: self.advisor_id,
            discipline: self.discipline@,
            enrollment: self.enrollment@,
            cgpa: self.cgpa,
            can_grad: self.can_grad,
            cur_credit: self.cur_credit,
            cum_credit: self.cum_credit,
        }
    }
}

impl DeepView for StudentAccount {
    type V = StudentAccountView;

    open spec fn deep_view(&self) -> StudentAccountView {
        self@
    }
}

impl Clone for StudentAccount {
    fn clone(&self) -> (r: Self)
        ensures
            r@ == self@,
    {
        let r = StudentAccount {
            id: self.id,
            student_id: self.student_id,
            advisor_id: self.advisor_id,
            discipline: self.discipline.clone(),
            enrollment: self.enrollment.clone(),
            cgpa: self.cgpa,
            can_grad: self.can_grad,
            cur_credit: self.cur_credit,
            cum_credit: self.cum_credit,
        };
        assert(r@ =~= self@);
        r
    }
}

/// The satellite record of a user with the teacher role.
#[derive(Debug, PartialEq, Eq)]
pub struct TeacherAccount {
    pub id: i32,
    pub teacher_id: i32,
    pub dept_id: i32,
    pub dept: String,
}

/// Ghost mirror of [`TeacherAccount`].
#[verifier::ext_equal]
pub ghost struct TeacherAccountView {
    pub id: i32,
    pub teacher_id: i32,
    pub dept_id: i32,
    pub dept: Seq<char>,
}

impl View for TeacherAccount {
    type V = TeacherAccountView;

    open spec fn view(&self) -> TeacherAccountView {
        TeacherAccountView {
            id: self.id,
            teacher_id: self.teacher_id,
            dept_id: self.dept_id,
            dept: self.dept@,
        }
    }
}

impl DeepView for TeacherAccount {
    type V = TeacherAccountView;

    open spec fn deep_view(&self) -> TeacherAccountView {
        self@
    }
}

impl Clone for TeacherAccount {
    fn clone(&self) -> (r: Self)
        ensures
            r@ == self@,
    {
        let r = TeacherAccount {
            id: self.id,
            teacher_id: self.teacher_id,
            dept_id: self.dept_id,
            dept: self.dept.clone(),
        };
        assert(r@ =~= self@);
        r
    }
}

/// A course record, owned by the teacher whose user id is `teacher_id`.
#[derive(Debug, PartialEq, Eq)]
pub struct Course {
    pub id: i32,
    pub teacher_id: i32,
    pub course: String,
    pub course_nr: String,
    pub description: String,
    pub cr_cost: i32,
    pub timeslots: String,
}

/// Ghost mirror of [`Course`].
#[verifier::ext_equal]
pub ghost struct CourseView {
    pub id: i32,
    pub teacher_id: i32,
    pub course: Seq<char>,
    pub course_nr: Seq<char>,
    pub description: Seq<char>,
    pub cr_cost: i32,
    pub timeslots: Seq<char>,
}

impl View for Course {
    type V = CourseView;

    open spec fn view(&self) -> CourseView {
        CourseView {
            id: self.id,
            teacher_id: self.teacher_id,
            course: self.course@,
            course_nr: self.course_nr@,
            description: self.description@,
            cr_cost: self.cr_cost,
            timeslots: self.timeslots@,
        }
    }
}

impl DeepView for Course {
    type V = CourseView;

    open spec fn deep_view(&self) -> CourseView {
        self@
    }
}

impl Clone for Course {
    fn clone(&self) -> (r: Self)
        ensures
            r@ == self@,
    {
        let r = Course {
            id: self.id,
            teacher_id: self.teacher_id,
            course: self.course.clone(),
            course_nr: self.course_nr.clone(),
            description: self.description.clone(),
            cr_cost: self.cr_cost,
            timeslots: self.timeslots.clone(),
        };
        assert(r@ =~= self@);
        r
    }
}

/// An enrollment: the many-to-many join of a student user and a course.
/// A grade of -1 is the not-yet-graded sentinel.
#[derive(Debug, PartialEq, Eq)]
pub struct StudentCourse {
    pub student_id: i32,
    pub course_id: i32,
    pub grade: i32,
    pub semester: String,
}

/// Ghost mirror of [`StudentCourse`].
#[verifier::ext_equal]
pub ghost struct StudentCourseView {
    pub student_id: i32,
    pub course_id: i32,
    pub grade: i32,
    pub semester: Seq<char>,
}

impl View for StudentCourse {
    type V = StudentCourseView;

    open spec fn view(&self) -> StudentCourseView {
        StudentCourseView {
            student_id: self.student_id,
            course_id: self.course_id,
            grade: self.grade,
            semester: self.semester@,
        }
    }
}

impl DeepView for StudentCourse {
    type V = StudentCourseView;

    open spec fn deep_view(&self) -> StudentCourseView {
        self@
    }
}

impl Clone for StudentCourse {
    fn clone(&self) -> (r: Self)
        ensures
            r@ == self@,
    {
        let r = StudentCourse {
            student_id: self.student_id,
            course_id: self.course_id,
            grade: self.grade,
            semester: self.semester.clone(),
        };
        assert(r@ =~= self@);
        r
    }
}

/// A department record; `dept_head` references a teacher account id.
#[derive(Debug, PartialEq, Eq)]
pub struct Department {
    pub id: i32,
    pub dept_head: i32,
    pub name: String,
}

/// Ghost mirror of [`Department`].
#[verifier::ext_equal]
pub ghost struct DepartmentView {
    pub id: i32,
    pub dept_head: i32,
    pub name: Seq<char>,
}

impl View for Department {
    type V = DepartmentView;

    open spec fn view(&self) -> DepartmentView {
        DepartmentView { id: self.id, dept_head: self.dept_head, name: self.name@ }
    }
}

impl DeepView for Department {
    type V = DepartmentView;

    open spec fn deep_view(&self) -> DepartmentView {
        self@
    }
}

impl Clone for Department {
    fn clone(&self) -> (r: Self)
        ensures
            r@ == self@,
    {
        let r = Department { id: self.id, dept_head: self.dept_head, name: self.name.clone() };
        assert(r@ =~= self@);
        r
    }
}

/// The tagged-union storage envelope: exactly one entity kind, with the
/// active variant known at read time. The storage driver stays
/// entity-agnostic by consuming and producing this sum type.
#[derive(Debug, PartialEq, Eq)]
pub enum ReceiverType {
    User(User),
    StudentAccount(StudentAccount),
    TeacherAccount(TeacherAccount),
    Course(Course),
    StudentCourse(StudentCourse),
    Department(Department),
}

/// Ghost mirror of [`ReceiverType`].
#[verifier::ext_equal]
pub ghost enum EntityView {
    User(UserView),
    StudentAccount(StudentAccountView),
    TeacherAccount(TeacherAccountView),
    Course(CourseView),
    StudentCourse(StudentCourseView),
    Department(DepartmentView),
}

impl View for ReceiverType {
    type V = EntityView;

    open spec fn view(&self) -> EntityView {
        match self {
            ReceiverType::User(u) => EntityView::User(u@),
            ReceiverType::StudentAccount(a) => EntityView::StudentAccount(a@),
            ReceiverType::TeacherAccount(t) => EntityView::TeacherAccount(t@),
            ReceiverType::Course(c) => EntityView::Course(c@),
            ReceiverType::StudentCourse(e) => EntityView::StudentCourse(e@),
            ReceiverType::Department(d) => EntityView::Department(d@),
        }
    }
}

impl DeepView for ReceiverType {
    type V = EntityView;

    open spec fn deep_view(&self) -> EntityView {
        self@
    }
}

impl Clone for ReceiverType {
    fn clone(&self) -> (r: Self)
        ensures
            r@ == self@,
    {
        match self {
            ReceiverType::User(u) => ReceiverType::User(u.clone()),
            ReceiverType::StudentAccount(a) => ReceiverType::StudentAccount(a.clone()),
            ReceiverType::TeacherAccount(t) => ReceiverType::TeacherAccount(t.clone()),
            ReceiverType::Course(c) => ReceiverType::Course(c.clone()),
            ReceiverType::StudentCourse(e) => ReceiverType::StudentCourse(e.clone()),
            ReceiverType::Department(d) => ReceiverType::Department(d.clone()),
        }
    }
}

} // verus!
