//! Statistics aggregator: derived counts over the current store, re-read
//! on every call. The active-student count subtracts every suspended
//! user, whatever their role; this exact arithmetic is part of the
//! contract.

use vstd::prelude::*;
use vstd::string::StringExecFns;
use crate::connection::ServerConnection;
use crate::connection::ServerError;
use crate::connection::Statistics;
use crate::db_driver::DbView;
use crate::filters::Filter;
use crate::filters::UsersFilter;
use crate::models::StudentAccountView;
use crate::queries::lemma_filtered_role;
use crate::queries::lemma_filtered_suspended;
use crate::queries::lemma_users_with_role_len;
use crate::queries::lemma_users_with_suspended_len;
use crate::queries::users_with_role;
use crate::queries::users_with_suspended;

verus! {

/// The student accounts cleared for graduation, in storage order.
pub open spec fn graduates(rows: Seq<StudentAccountView>) -> Seq<StudentAccountView>
    decreases rows.len(),
{
    if rows.len() == 0 {
        Seq::empty()
    } else {
        let rest = graduates(rows.drop_last());
        if rows.last().can_grad {
            rest.push(rows.last())
        } else {
            rest
        }
    }
}

/// Graduates never outnumber the student accounts.
pub proof fn lemma_graduates_len(rows: Seq<StudentAccountView>)
    ensures
        graduates(rows).len() <= rows.len(),
    decreases rows.len(),
{
    if rows.len() > 0 {
        lemma_graduates_len(rows.drop_last());
    }
}

/// The derived counts of a store: every user; the suspended users; the
/// users whose role string is exactly `teacher`; the users whose role
/// string is exactly `student`, minus every suspended user of any role;
/// the student accounts cleared for graduation; and the course and
/// department rows.
pub open spec fn spec_statistics(s: DbView) -> Statistics {
    Statistics {
        registered_users: s.users.len() as i32,
        suspended_users: users_with_suspended(s.users, true).len() as i32,
        faculty_members: users_with_role(s.users, "teacher"@).len() as i32,
        active_students: (users_with_role(s.users, "student"@).len() - users_with_suspended(
            s.users,
            true,
        ).len()) as i32,
        graduated_students: graduates(s.student_accounts).len() as i32,
        courses: s.courses.len() as i32,
        departments: s.departments.len() as i32,
    }
}

impl ServerConnection {
    /// Counts the student accounts cleared for graduation.
    fn count_graduates(&self) -> (r: usize)
        ensures
            r == graduates(self.db@.student_accounts).len(),
    {
        let rows = &self.db.student_accounts;
        let n = rows.len();
        let mut count: usize = 0;
        let mut i: usize = 0;
        while i < n
            invariant
                n == rows@.len(),
                i <= n,
                count == graduates(rows.deep_view().subrange(0, i as int)).len(),
                count <= i,
            decreases n - i,
        {
            proof {
                let dv = rows.deep_view();
                assert(dv[i as int] == rows@[i as int]@);
                assert(dv.subrange(0, i + 1).drop_last() =~= dv.subrange(0, i as int));
                assert(dv.subrange(0, i + 1).last() == dv[i as int]);
            }
            if rows[i].can_grad {
                count += 1;
            }
            i += 1;
        }
        proof {
            assert(rows.deep_view().subrange(0, n as int) =~= rows.deep_view());
        }
        count
    }

    /// Derives the current statistics. The store must fit the counter
    /// width.
    pub fn generate_statistics(&self) -> (r: Result<Statistics, ServerError>)
        requires
            self.db@.users.len() <= i32::MAX as int,
            self.db@.student_accounts.len() <= i32::MAX as int,
            self.db@.courses.len() <= i32::MAX as int,
            self.db@.departments.len() <= i32::MAX as int,
        ensures
            match r {
                Ok(st) => st == spec_statistics(self.db@),
                Err(_) => false,
            },
    {
        let all = match self.get_users() {
            Ok(v) => v,
            Err(e) => {
                return Err(e);
            },
        };
        proof {
            assert(all.deep_view().len() == all@.len());
        }
        let registered_users = all.len() as i32;
        let sfs = vec![Filter::Users(UsersFilter::Suspended(true))];
        let ghost sfsv = sfs@;
        let suspended = match self.get_users_by_filters(sfs) {
            Ok(v) => v,
            Err(e) => {
                return Err(e);
            },
        };
        proof {
            assert(sfsv =~= seq![Filter::Users(UsersFilter::Suspended(true))]);
            lemma_filtered_suspended(self.db@.users, true);
            lemma_users_with_suspended_len(self.db@.users, true);
            assert(suspended.deep_view().len() == suspended@.len());
        }
        let suspended_users = suspended.len() as i32;
        let teacher_role = String::from_str("teacher");
        let ghost trv = teacher_role;
        let tfs = vec![Filter::Users(UsersFilter::Role(teacher_role))];
        let ghost tfsv = tfs@;
        let faculty = match self.get_users_by_filters(tfs) {
            Ok(v) => v,
            Err(e) => {
                return Err(e);
            },
        };
        proof {
            assert(tfsv =~= seq![Filter::Users(UsersFilter::Role(trv))]);
            lemma_filtered_role(self.db@.users, trv);
            lemma_users_with_role_len(self.db@.users, "teacher"@);
            assert(faculty.deep_view().len() == faculty@.len());
        }
        let faculty_members = faculty.len() as i32;
        let student_role = String::from_str("student");
        let ghost srv = student_role;
        let stfs = vec![Filter::Users(UsersFilter::Role(student_role))];
        let ghost stfsv = stfs@;
        let students = match self.get_users_by_filters(stfs) {
            Ok(v) => v,
            Err(e) => {
                return Err(e);
            },
        };
        proof {
            assert(stfsv =~= seq![Filter::Users(UsersFilter::Role(srv))]);
            lemma_filtered_role(self.db@.users, srv);
            lemma_users_with_role_len(self.db@.users, "student"@);
            assert(students.deep_view().len() == students@.len());
        }
        let active_students = students.len() as i32 - suspended_users;
        let grads = self.count_graduates();
        proof {
            lemma_graduates_len(self.db@.student_accounts);
        }
        let graduated_students = grads as i32;
        let courses = self.db.courses.len() as i32;
        let departments = self.db.departments.len() as i32;
        Ok(
            Statistics {
                registered_users,
                suspended_users,
                faculty_members,
                active_students,
                graduated_students,
                courses,
                departments,
            },
        )
    }
}

} // verus!
