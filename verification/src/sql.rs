//! SQL intent: each record renders the statement describing what an
//! external execution collaborator should insert, update or delete. The
//! core emits these strings; it never executes them.
//!
//! `Table::name` renders every table in its canonical upper-case form,
//! while the statement emitters keep each table's per-statement casing;
//! SQL resolves table names case-insensitively, so both spellings denote
//! the same tables.

use vstd::prelude::*;
use vstd::string::StringExecFns;
use crate::models::Action;
use crate::models::Course;
use crate::models::Department;
use crate::models::StudentAccount;
use crate::models::StudentCourse;
use crate::models::Table;
use crate::models::TeacherAccount;
use crate::models::User;
use crate::strings::i32_dec;
use crate::strings::i32_to_string;

verus! {

/// A join kind between two tables.
#[derive(Clone, Copy, PartialEq, Eq, Structural, Debug)]
pub enum Join {
    Inner,
    Left,
    Right,
}

/// The canonical upper-case SQL name of a table.
pub open spec fn table_name(t: Table) -> Seq<char> {
    match t {
        Table::Users => "USERS"@,
        Table::StudentAccount => "STUDENT_ACCOUNTS"@,
        Table::TeacherAccount => "TEACHER_ACCOUNTS"@,
        Table::Courses => "COURSES"@,
        Table::StudentCourses => "STUDENT_COURSES"@,
        Table::Departments => "DEPARTMENTS"@,
    }
}

/// The SQL name of a join kind.
pub open spec fn join_name(j: Join) -> Seq<char> {
    match j {
        Join::Inner => "INNER JOIN"@,
        Join::Left => "LEFT JOIN"@,
        Join::Right => "RIGHT JOIN"@,
    }
}

/// The SQL rendering of a boolean.
pub open spec fn bool_sql(b: bool) -> Seq<char> {
    if b {
        "true"@
    } else {
        "false"@
    }
}

impl Table {
    /// Renders the canonical upper-case SQL name of this table.
    pub fn name(&self) -> (r: String)
        ensures
            r@ == table_name(*self),
    {
        match self {
            Table::Users => String::from_str("USERS"),
            Table::StudentAccount => String::from_str("STUDENT_ACCOUNTS"),
            Table::TeacherAccount => String::from_str("TEACHER_ACCOUNTS"),
            Table::Courses => String::from_str("COURSES"),
            Table::StudentCourses => String::from_str("STUDENT_COURSES"),
            Table::Departments => String::from_str("DEPARTMENTS"),
        }
    }

    /// Renders the join clause between this table and another.
    pub fn join(&self, other: &Table, join_as: Join) -> (r: String)
        ensures
            r@ == table_name(*self) + " "@ + join_name(join_as) + " "@ + table_name(*other),
    {
        let mut out = self.name();
        out.append(" ");
        let middle = match join_as {
            Join::Inner => String::from_str("INNER JOIN"),
            Join::Left => String::from_str("LEFT JOIN"),
            Join::Right => String::from_str("RIGHT JOIN"),
        };
        out.append(middle.as_str());
        out.append(" ");
        let second = other.name();
        out.append(second.as_str());
        out
    }
}

/// Renders a boolean for SQL.
fn bool_str(b: bool) -> (r: String)
    ensures
        r@ == bool_sql(b),
{
    if b {
        String::from_str("true")
    } else {
        String::from_str("false")
    }
}

/// A record that renders SQL intent for the external execution
/// collaborator.
pub trait ToSQL {
    /// What the rendered statement says, character for character.
    spec fn sql_spec(&self, a: Action) -> Seq<char>;

    /// Renders the statement for one action.
    fn to_sql(&self, a: Action) -> (r: String)
        ensures
            r@ == self.sql_spec(a),
    ;
}

impl ToSQL for User {
    open spec fn sql_spec(&self, a: Action) -> Seq<char> {
        match a {
            Action::Insert => "INSERT INTO USERS (username, password, email, phone, verified, suspended, forcenewpw, role) VALUES ('"@
                + self.username@ + "', '"@ + self.password@ + "', '"@ + self.email@ + "', '"@
                + self.phone@ + "', "@ + bool_sql(self.verified) + ", "@ + bool_sql(self.suspended)
                + ", "@ + bool_sql(self.forcenewpw) + ", '"@ + self.role@ + "')"@,
            Action::Update => "UPDATE USERS SET username = '"@ + self.username@
                + "', password = '"@ + self.password@ + "', email = '"@ + self.email@
                + "', phone = '"@ + self.phone@ + "', verified = "@ + bool_sql(self.verified)
                + ", suspended = "@ + bool_sql(self.suspended) + ", forcenewpw = "@ + bool_sql(
                self.forcenewpw,
            ) + ", role = '"@ + self.role@ + "' WHERE id = "@ + i32_dec(self.id as int),
            Action::Delete => "DELETE FROM USERS WHERE id = "@ + i32_dec(self.id as int),
        }
    }

    fn to_sql(&self, a: Action) -> (r: String) {
        match a {
            Action::Insert => {
                let mut out = String::from_str(
                    "INSERT INTO USERS (username, password, email, phone, verified, suspended, forcenewpw, role) VALUES ('",
                );
                out.append(self.username.as_str());
                out.append("', '");
                out.append(self.password.as_str());
                out.append("', '");
                out.append(self.email.as_str());
                out.append("', '");
                out.append(self.phone.as_str());
                out.append("', ");
                let v = bool_str(self.verified);
                out.append(v.as_str());
                out.append(", ");
                let s = bool_str(self.suspended);
                out.append(s.as_str());
                out.append(", ");
                let f = bool_str(self.forcenewpw);
                out.append(f.as_str());
                out.append(", '");
                out.append(self.role.as_str());
                out.append("')");
                assert(out@ =~= self.sql_spec(a));
                out
            },
            Action::Update => {
                let mut out = String::from_str("UPDATE USERS SET username = '");
                out.append(self.username.as_str());
                out.append("', password = '");
                out.append(self.password.as_str());
                out.append("', email = '");
                out.append(self.email.as_str());
                out.append("', phone = '");
                out.append(self.phone.as_str());
                out.append("', verified = ");
                let v = bool_str(self.verified);
                out.append(v.as_str());
                out.append(", suspended = ");
                let s = bool_str(self.suspended);
                out.append(s.as_str());
                out.append(", forcenewpw = ");
                let f = bool_str(self.forcenewpw);
                out.append(f.as_str());
                out.append(", role = '");
                out.append(self.role.as_str());
                out.append("' WHERE id = ");
                let id = i32_to_string(self.id);
                out.append(id.as_str());
                assert(out@ =~= self.sql_spec(a));
                out
            },
            Action::Delete => {
                let mut out = String::from_str("DELETE FROM USERS WHERE id = ");
                let id = i32_to_string(self.id);
                out.append(id.as_str());
                assert(out@ =~= self.sql_spec(a));
                out
            },
        }
    }
}

impl ToSQL for StudentAccount {
    open spec fn sql_spec(&self, a: Action) -> Seq<char> {
        match a {
            Action::Insert => "INSERT INTO STUDENT_ACCOUNTS (student_id, advisor_id, discipline, enrollment, cgpa, can_grad, cur_credit, cum_credit) VALUES ("@
                + i32_dec(self.student_id as int) + ", "@ + i32_dec(self.advisor_id as int)
                + ", '"@ + self.discipline@ + "', '"@ + self.enrollment@ + "', "@ + i32_dec(
                self.cgpa as int,
            ) + ", "@ + bool_sql(self.can_grad) + ", "@ + i32_dec(self.cur_credit as int) + ", "@
                + i32_dec(self.cum_credit as int) + ")"@,
            Action::Update => "UPDATE STUDENT_ACCOUNTS SET student_id = "@ + i32_dec(
                self.student_id as int,
            ) + ", advisor_id = "@ + i32_dec(self.advisor_id as int) + ", discipline = '"@
                + self.discipline@ + "', enrollment = '"@ + self.enrollment@ + "', cgpa = "@
                + i32_dec(self.cgpa as int) + ", can_grad = "@ + bool_sql(self.can_grad)
                + ", cur_credit = "@ + i32_dec(self.cur_credit as int) + ", cum_credit = "@
                + i32_dec(self.cum_credit as int) + " WHERE id = "@ + i32_dec(self.id as int),
            Action::Delete => "DELETE FROM STUDENT_ACCOUNTS WHERE id = "@ + i32_dec(
                self.id as int,
            ),
        }
    }

    fn to_sql(&self, a: Action) -> (r: String) {
        match a {
            Action::Insert => {
                let mut out = String::from_str(
                    "INSERT INTO STUDENT_ACCOUNTS (student_id, advisor_id, discipline, enrollment, cgpa, can_grad, cur_credit, cum_credit) VALUES (",
                );
                let sid = i32_to_string(self.student_id);
                out.append(sid.as_str());
                out.append(", ");
                let aid = i32_to_string(self.advisor_id);
                out.append(aid.as_str());
                out.append(", '");
                out.append(self.discipline.as_str());
                out.append("', '");
                out.append(self.enrollment.as_str());
                out.append("', ");
                let g = i32_to_string(self.cgpa);
                out.append(g.as_str());
                out.append(", ");
                let cg = bool_str(self.can_grad);
                out.append(cg.as_str());
                out.append(", ");
                let cur = i32_to_string(self.cur_credit);
                out.append(cur.as_str());
                out.append(", ");
                let cum = i32_to_string(self.cum_credit);
                out.append(cum.as_str());
                out.append(")");
                assert(out@ =~= self.sql_spec(a));
                out
            },
            Action::Update => {
                let mut out = String::from_str("UPDATE STUDENT_ACCOUNTS SET student_id = ");
                let sid = i32_to_string(self.student_id);
                out.append(sid.as_str());
                out.append(", advisor_id = ");
                let aid = i32_to_string(self.advisor_id);
                out.append(aid.as_str());
                out.append(", discipline = '");
                out.append(self.discipline.as_str());
                out.append("', enrollment = '");
                out.append(self.enrollment.as_str());
                out.append("', cgpa = ");
                let g = i32_to_string(self.cgpa);
                out.append(g.as_str());
                out.append(", can_grad = ");
                let cg = bool_str(self.can_grad);
                out.append(cg.as_str());
                out.append(", cur_credit = ");
                let cur = i32_to_string(self.cur_credit);
                out.append(cur.as_str());
                out.append(", cum_credit = ");
                let cum = i32_to_string(self.cum_credit);
                out.append(cum.as_str());
                out.append(" WHERE id = ");
                let id = i32_to_string(self.id);
                out.append(id.as_str());
                assert(out@ =~= self.sql_spec(a));
                out
            },
            Action::Delete => {
                let mut out = String::from_str("DELETE FROM STUDENT_ACCOUNTS WHERE id = ");
                let id = i32_to_string(self.id);
                out.append(id.as_str());
                assert(out@ =~= self.sql_spec(a));
                out
            },
        }
    }
}

impl ToSQL for TeacherAccount {
    open spec fn sql_spec(&self, a: Action) -> Seq<char> {
        match a {
            Action::Insert => "INSERT INTO TEACHER_ACCOUNTS (teacher_id, dept_id, dept) VALUES ("@
                + i32_dec(self.teacher_id as int) + ", "@ + i32_dec(self.dept_id as int) + ", '"@
                + self.dept@ + "')"@,
            Action::Update => "UPDATE TEACHER_ACCOUNTS SET teacher_id = "@ + i32_dec(
                self.teacher_id as int,
            ) + ", dept_id = "@ + i32_dec(self.dept_id as int) + ", dept = '"@ + self.dept@
                + "' WHERE id = "@ + i32_dec(self.id as int),
            Action::Delete => "DELETE FROM TEACHER_ACCOUNTS WHERE id = "@ + i32_dec(
                self.id as int,
            ),
        }
    }

    fn to_sql(&self, a: Action) -> (r: String) {
        match a {
            Action::Insert => {
                let mut out = String::from_str(
                    "INSERT INTO TEACHER_ACCOUNTS (teacher_id, dept_id, dept) VALUES (",
                );
                let tid = i32_to_string(self.teacher_id);
                out.append(tid.as_str());
                out.append(", ");
                let did = i32_to_string(self.dept_id);
                out.append(did.as_str());
                out.append(", '");
                out.append(self.dept.as_str());
                out.append("')");
                assert(out@ =~= self.sql_spec(a));
                out
            },
            Action::Update => {
                let mut out = String::from_str("UPDATE TEACHER_ACCOUNTS SET teacher_id = ");
                let tid = i32_to_string(self.teacher_id);
                out.append(tid.as_str());
                out.append(", dept_id = ");
                let did = i32_to_string(self.dept_id);
                out.append(did.as_str());
                out.append(", dept = '");
                out.append(self.dept.as_str());
                out.append("' WHERE id = ");
                let id = i32_to_string(self.id);
                out.append(id.as_str());
                assert(out@ =~= self.sql_spec(a));
                out
            },
            Action::Delete => {
                let mut out = String::from_str("DELETE FROM TEACHER_ACCOUNTS WHERE id = ");
                let id = i32_to_string(self.id);
                out.append(id.as_str());
                assert(out@ =~= self.sql_spec(a));
                out
            },
        }
    }
}

impl ToSQL for Course {
    open spec fn sql_spec(&self, a: Action) -> Seq<char> {
        match a {
            Action::Insert => "INSERT INTO COURSES (teacher_id, course, course_nr, description, cr_cost, timeslots) VALUES ("@
                + i32_dec(self.teacher_id as int) + ", '"@ + self.course@ + "', '"@
                + self.course_nr@ + "', '"@ + self.description@ + "', "@ + i32_dec(
                self.cr_cost as int,
            ) + ", '"@ + self.timeslots@ + "')"@,
            Action::Update => "UPDATE COURSES SET teacher_id = "@ + i32_dec(self.teacher_id as int)
                + ", course = '"@ + self.course@ + "', course_nr = '"@ + self.course_nr@
                + "', description = '"@ + self.description@ + "', cr_cost = "@ + i32_dec(
                self.cr_cost as int,
            ) + ", timeslots = '"@ + self.timeslots@ + "' WHERE id = "@ + i32_dec(self.id as int),
            Action::Delete => "DELETE FROM COURSES WHERE id = "@ + i32_dec(self.id as int),
        }
    }

    fn to_sql(&self, a: Action) -> (r: String) {
        match a {
            Action::Insert => {
                let mut out = String::from_str(
                    "INSERT INTO COURSES (teacher_id, course, course_nr, description, cr_cost, timeslots) VALUES (",
                );
                let tid = i32_to_string(self.teacher_id);
                out.append(tid.as_str());
                out.append(", '");
                out.append(self.course.as_str());
                out.append("', '");
                out.append(self.course_nr.as_str());
                out.append("', '");
                out.append(self.description.as_str());
                out.append("', ");
                let cost = i32_to_string(self.cr_cost);
                out.append(cost.as_str());
                out.append(", '");
                out.append(self.timeslots.as_str());
                out.append("')");
                assert(out@ =~= self.sql_spec(a));
                out
            },
            Action::Update => {
                let mut out = String::from_str("UPDATE COURSES SET teacher_id = ");
                let tid = i32_to_string(self.teacher_id);
                out.append(tid.as_str());
                out.append(", course = '");
                out.append(self.course.as_str());
                out.append("', course_nr = '");
                out.append(self.course_nr.as_str());
                out.append("', description = '");
                out.append(self.description.as_str());
                out.append("', cr_cost = ");
                let cost = i32_to_string(self.cr_cost);
                out.append(cost.as_str());
                out.append(", timeslots = '");
                out.append(self.timeslots.as_str());
                out.append("' WHERE id = ");
                let id = i32_to_string(self.id);
                out.append(id.as_str());
                assert(out@ =~= self.sql_spec(a));
                out
            },
            Action::Delete => {
                let mut out = String::from_str("DELETE FROM COURSES WHERE id = ");
                let id = i32_to_string(self.id);
                out.append(id.as_str());
                assert(out@ =~= self.sql_spec(a));
                out
            },
        }
    }
}

impl ToSQL for StudentCourse {
    open spec fn sql_spec(&self, a: Action) -> Seq<char> {
        match a {
            Action::Insert => "INSERT INTO student_courses (student_id, course_id, grade, semester) VALUES ("@
                + i32_dec(self.student_id as int) + ", "@ + i32_dec(self.course_id as int) + ", "@
                + i32_dec(self.grade as int) + ", '"@ + self.semester@ + "')"@,
            Action::Update => "UPDATE student_courses SET grade = "@ + i32_dec(self.grade as int)
                + ", semester = '"@ + self.semester@ + "' WHERE student_id = "@ + i32_dec(
                self.student_id as int,
            ) + " AND course_id = "@ + i32_dec(self.course_id as int),
            Action::Delete => "DELETE FROM student_courses WHERE student_id = "@ + i32_dec(
                self.student_id as int,
            ) + " AND course_id = "@ + i32_dec(self.course_id as int),
        }
    }

    fn to_sql(&self, a: Action) -> (r: String) {
        match a {
            Action::Insert => {
                let mut out = String::from_str(
                    "INSERT INTO student_courses (student_id, course_id, grade, semester) VALUES (",
                );
                let sid = i32_to_string(self.student_id);
                out.append(sid.as_str());
                out.append(", ");
                let cid = i32_to_string(self.course_id);
                out.append(cid.as_str());
                out.append(", ");
                let g = i32_to_string(self.grade);
                out.append(g.as_str());
                out.append(", '");
                out.append(self.semester.as_str());
                out.append("')");
                assert(out@ =~= self.sql_spec(a));
                out
            },
            Action::Update => {
                let mut out = String::from_str("UPDATE student_courses SET grade = ");
                let g = i32_to_string(self.grade);
                out.append(g.as_str());
                out.append(", semester = '");
                out.append(self.semester.as_str());
                out.append("' WHERE student_id = ");
                let sid = i32_to_string(self.student_id);
                out.append(sid.as_str());
                out.append(" AND course_id = ");
                let cid = i32_to_string(self.course_id);
                out.append(cid.as_str());
                assert(out@ =~= self.sql_spec(a));
                out
            },
            Action::Delete => {
                let mut out = String::from_str(
                    "DELETE FROM student_courses WHERE student_id = ",
                );
                let sid = i32_to_string(self.student_id);
                out.append(sid.as_str());
                out.append(" AND course_id = ");
                let cid = i32_to_string(self.course_id);
                out.append(cid.as_str());
                assert(out@ =~= self.sql_spec(a));
                out
            },
        }
    }
}

impl ToSQL for Department {
    open spec fn sql_spec(&self, a: Action) -> Seq<char> {
        match a {
            Action::Insert => "INSERT INTO departments (dept_head, name) VALUES ("@ + i32_dec(
                self.dept_head as int,
            ) + ", '"@ + self.name@ + "')"@,
            Action::Update => "UPDATE departments SET dept_head = "@ + i32_dec(
                self.dept_head as int,
            ) + ", name = '"@ + self.name@ + "' WHERE id = "@ + i32_dec(self.id as int),
            Action::Delete => "DELETE FROM departments WHERE id = "@ + i32_dec(self.id as int),
        }
    }

    fn to_sql(&self, a: Action) -> (r: String) {
        match a {
            Action::Insert => {
                let mut out = String::from_str(
                    "INSERT INTO departments (dept_head, name) VALUES (",
                );
                let dh = i32_to_string(self.dept_head);
                out.append(dh.as_str());
                out.append(", '");
                out.append(self.name.as_str());
                out.append("')");
                assert(out@ =~= self.sql_spec(a));
                out
            },
            Action::Update => {
                let mut out = String::from_str("UPDATE departments SET dept_head = ");
                let dh = i32_to_string(self.dept_head);
                out.append(dh.as_str());
                out.append(", name = '");
                out.append(self.name.as_str());
                out.append("' WHERE id = ");
                let id = i32_to_string(self.id);
                out.append(id.as_str());
                assert(out@ =~= self.sql_spec(a));
                out
            },
            Action::Delete => {
                let mut out = String::from_str("DELETE FROM departments WHERE id = ");
                let id = i32_to_string(self.id);
                out.append(id.as_str());
                assert(out@ =~= self.sql_spec(a));
                out
            },
        }
    }
}

} // verus!
