//! Filter engine: composable per-table predicates (field equality and
//! match-all) and the boolean mode in which a predicate list combines.
//!
//! A filter aimed at one table never selects a row of another kind; an
//! empty filter list selects every row of the queried table.

use vstd::prelude::*;
use crate::models::EntityView;
use crate::models::ReceiverType;
use crate::strings::str_eq;

verus! {

/// The boolean mode in which a list of filter predicates combines:
/// `And` keeps rows satisfying every predicate, `Or` rows satisfying any.
/// When no combinator is supplied, the driver defaults to `And`.
#[derive(Clone, Copy, PartialEq, Eq, Structural, Debug)]
pub enum Associativity {
    And,
    Or,
}

/// Predicates over user rows.
pub enum UsersFilter {
    Id(i32),
    Email(String),
    Role(String),
    Suspended(bool),
    All,
}

/// Predicates over student-account rows.
pub enum StudentAccountFilter {
    Id(i32),
    StudentId(i32),
    CanGrad(bool),
    All,
}

/// Predicates over teacher-account rows.
pub enum TeacherAccountFilter {
    Id(i32),
    TeacherId(i32),
    DeptId(i32),
    All,
}

/// Predicates over course rows.
pub enum CoursesFilter {
    Id(i32),
    TeacherId(i32),
    All,
}

/// Predicates over enrollment rows.
pub enum StudentCoursesFilter {
    StudentId(i32),
    CourseId(i32),
    All,
}

/// Predicates over department rows.
pub enum DepartmentsFilter {
    Id(i32),
    All,
}

/// A predicate over rows of exactly one table.
pub enum Filter {
    Users(UsersFilter),
    StudentAccount(StudentAccountFilter),
    TeacherAccount(TeacherAccountFilter),
    Courses(CoursesFilter),
    StudentCourses(StudentCoursesFilter),
    Departments(DepartmentsFilter),
}

/// Whether one filter predicate holds of one row. A predicate aimed at a
/// different entity kind never holds.
pub open spec fn entity_matches(f: Filter, e: EntityView) -> bool {
    match f {
        Filter::Users(uf) => match e {
            EntityView::User(u) => match uf {
                UsersFilter::Id(id) => u.id == id,
                UsersFilter::Email(s) => u.email == s@,
                UsersFilter::Role(s) => u.role == s@,
                UsersFilter::Suspended(b) => u.suspended == b,
                UsersFilter::All => true,
            },
            _ => false,
        },
        Filter::StudentAccount(af) => match e {
            EntityView::StudentAccount(a) => match af {
                StudentAccountFilter::Id(id) => a.id == id,
                StudentAccountFilter::StudentId(id) => a.student_id == id,
                StudentAccountFilter::CanGrad(b) => a.can_grad == b,
                StudentAccountFilter::All => true,
            },
            _ => false,
        },
        Filter::TeacherAccount(tf) => match e {
            EntityView::TeacherAccount(t) => match tf {
                TeacherAccountFilter::Id(id) => t.id == id,
                TeacherAccountFilter::TeacherId(id) => t.teacher_id == id,
                TeacherAccountFilter::DeptId(id) => t.dept_id == id,
                TeacherAccountFilter::All => true,
            },
            _ => false,
        },
        Filter::Courses(cf) => match e {
            EntityView::Course(c) => match cf {
                CoursesFilter::Id(id) => c.id == id,
                CoursesFilter::TeacherId(id) => c.teacher_id == id,
                CoursesFilter::All => true,
            },
            _ => false,
        },
        Filter::StudentCourses(sf) => match e {
            EntityView::StudentCourse(sc) => match sf {
                StudentCoursesFilter::StudentId(id) => sc.student_id == id,
                StudentCoursesFilter::CourseId(id) => sc.course_id == id,
                StudentCoursesFilter::All => true,
            },
            _ => false,
        },
        Filter::Departments(df) => match e {
            EntityView::Department(d) => match df {
                DepartmentsFilter::Id(id) => d.id == id,
                DepartmentsFilter::All => true,
            },
            _ => false,
        },
    }
}

/// Whether a row is selected by a filter list under a combinator. An
/// empty filter list selects every row; a missing combinator means `And`.
pub open spec fn row_selected(fs: Seq<Filter>, comb: Option<Associativity>, e: EntityView) -> bool {
    if fs.len() == 0 {
        true
    } else if comb == Some(Associativity::Or) {
        exists|i: int| 0 <= i < fs.len() && entity_matches(fs[i], e)
    } else {
        forall|i: int| 0 <= i < fs.len() ==> entity_matches(fs[i], e)
    }
}

/// Evaluates one filter predicate on one stored row.
pub fn eval_filter(f: &Filter, e: &ReceiverType) -> (r: bool)
    ensures
        r == entity_matches(*f, e@),
{
    match (f, e) {
        (Filter::Users(UsersFilter::Id(id)), ReceiverType::User(u)) => *id == u.id,
        (Filter::Users(UsersFilter::Email(s)), ReceiverType::User(u)) => str_eq(
            u.email.as_str(),
            s.as_str(),
        ),
        (Filter::Users(UsersFilter::Role(s)), ReceiverType::User(u)) => str_eq(
            u.role.as_str(),
            s.as_str(),
        ),
        (Filter::Users(UsersFilter::Suspended(b)), ReceiverType::User(u)) => *b == u.suspended,
        (Filter::Users(UsersFilter::All), ReceiverType::User(_)) => true,
        (Filter::StudentAccount(StudentAccountFilter::Id(id)), ReceiverType::StudentAccount(a)) => *id == a.id,
        (
            Filter::StudentAccount(StudentAccountFilter::StudentId(id)),
            ReceiverType::StudentAccount(a),
        ) => *id == a.student_id,
        (
            Filter::StudentAccount(StudentAccountFilter::CanGrad(b)),
            ReceiverType::StudentAccount(a),
        ) => *b == a.can_grad,
        (Filter::StudentAccount(StudentAccountFilter::All), ReceiverType::StudentAccount(_)) => true,
        (Filter::TeacherAccount(TeacherAccountFilter::Id(id)), ReceiverType::TeacherAccount(t)) => *id == t.id,
        (
            Filter::TeacherAccount(TeacherAccountFilter::TeacherId(id)),
            ReceiverType::TeacherAccount(t),
        ) => *id == t.teacher_id,
        (
            Filter::TeacherAccount(TeacherAccountFilter::DeptId(id)),
            ReceiverType::TeacherAccount(t),
        ) => *id == t.dept_id,
        (Filter::TeacherAccount(TeacherAccountFilter::All), ReceiverType::TeacherAccount(_)) => true,
        (Filter::Courses(CoursesFilter::Id(id)), ReceiverType::Course(c)) => *id == c.id,
        (Filter::Courses(CoursesFilter::TeacherId(id)), ReceiverType::Course(c)) => *id
            == c.teacher_id,
        (Filter::Courses(CoursesFilter::All), ReceiverType::Course(_)) => true,
        (
            Filter::StudentCourses(StudentCoursesFilter::StudentId(id)),
            ReceiverType::StudentCourse(sc),
        ) => *id == sc.student_id,
        (
            Filter::StudentCourses(StudentCoursesFilter::CourseId(id)),
            ReceiverType::StudentCourse(sc),
        ) => *id == sc.course_id,
        (Filter::StudentCourses(StudentCoursesFilter::All), ReceiverType::StudentCourse(_)) => true,
        (Filter::Departments(DepartmentsFilter::Id(id)), ReceiverType::Department(d)) => *id
            == d.id,
        (Filter::Departments(DepartmentsFilter::All), ReceiverType::Department(_)) => true,
        _ => false,
    }
}

/// Evaluates a filter list on one stored row under a combinator.
pub fn eval_filters(fs: &Vec<Filter>, comb: Option<Associativity>, e: &ReceiverType) -> (r: bool)
    ensures
        r == row_selected(fs@, comb, e@),
{
    if fs.len() == 0 {
        return true;
    }
    let or_mode = match comb {
        Some(Associativity::Or) => true,
        _ => false,
    };
    if or_mode {
        let mut i: usize = 0;
        while i < fs.len()
            invariant
                i <= fs@.len(),
                fs@.len() > 0,
                comb == Some(Associativity::Or),
                forall|j: int| 0 <= j < i ==> !entity_matches(fs@[j], e@),
            decreases fs@.len() - i,
        {
            if eval_filter(&fs[i], e) {
                return true;
            }
            i += 1;
        }
        false
    } else {
        let mut i: usize = 0;
        while i < fs.len()
            invariant
                i <= fs@.len(),
                fs@.len() > 0,
                comb != Some(Associativity::Or),
                forall|j: int| 0 <= j < i ==> entity_matches(fs@[j], e@),
            decreases fs@.len() - i,
        {
            if !eval_filter(&fs[i], e) {
                return false;
            }
            i += 1;
        }
        true
    }
}

} // verus!
