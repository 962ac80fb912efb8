//! Storage driver: executes `find`, `insert`, `update` and `delete`
//! against the backing store, consuming and producing the tagged-union
//! envelope, agnostic to entity semantics.
//!
//! The store is an in-memory table per entity kind. Mutations apply a
//! batch left to right; `update` and `delete` address rows by their key
//! (the id column, or the composite enrollment key) and leave rows of
//! every other table untouched. The ghost transition functions
//! `insert_one`, `update_one`, `delete_one` and their fold `apply_all`
//! are the single semantics every mutation contract refers to.

use vstd::prelude::*;
use crate::filters::Associativity;
use crate::filters::Filter;
use crate::filters::eval_filters;
use crate::filters::row_selected;
use crate::models::Action;
use crate::models::Course;
use crate::models::CourseView;
use crate::models::Department;
use crate::models::DepartmentView;
use crate::models::EntityView;
use crate::models::ReceiverType;
use crate::models::StudentAccount;
use crate::models::StudentAccountView;
use crate::models::StudentCourse;
use crate::models::StudentCourseView;
use crate::models::Table;
use crate::models::TeacherAccount;
use crate::models::TeacherAccountView;
use crate::models::User;
use crate::models::UserView;

verus! {

/// An opaque failure of the backing store. The in-memory store never
/// fails, so every driver contract promises `Ok`; the variant exists so
/// that the driver interface stays fallible for its callers.
#[derive(Clone, Copy, PartialEq, Eq, Structural, Debug)]
pub enum DbError {
    Backend,
}

/// Ghost state of the whole store: one row sequence per table, in
/// storage (insertion) order.
#[verifier::ext_equal]
pub ghost struct DbView {
    pub users: Seq<UserView>,
    pub student_accounts: Seq<StudentAccountView>,
    pub teacher_accounts: Seq<TeacherAccountView>,
    pub courses: Seq<CourseView>,
    pub student_courses: Seq<StudentCourseView>,
    pub departments: Seq<DepartmentView>,
}

/// The backing store: one in-memory table per entity kind.
pub struct DbDriver {
    pub users: Vec<User>,
    pub student_accounts: Vec<StudentAccount>,
    pub teacher_accounts: Vec<TeacherAccount>,
    pub courses: Vec<Course>,
    pub student_courses: Vec<StudentCourse>,
    pub departments: Vec<Department>,
}

impl View for DbDriver {
    type V = DbView;

    open spec fn view(&self) -> DbView {
        DbView {
            users: self.users.deep_view(),
            student_accounts: self.student_accounts.deep_view(),
            teacher_accounts: self.teacher_accounts.deep_view(),
            courses: self.courses.deep_view(),
            student_courses: self.student_courses.deep_view(),
            departments: self.departments.deep_view(),
        }
    }
}

/// Appends one entity to its table.
pub open spec fn insert_one(s: DbView, e: EntityView) -> DbView {
    match e {
        EntityView::User(u) => DbView { users: s.users.push(u), ..s },
        EntityView::StudentAccount(a) => DbView {
            student_accounts: s.student_accounts.push(a),
            ..s
        },
        EntityView::TeacherAccount(t) => DbView {
            teacher_accounts: s.teacher_accounts.push(t),
            ..s
        },
        EntityView::Course(c) => DbView { courses: s.courses.push(c), ..s },
        EntityView::StudentCourse(sc) => DbView {
            student_courses: s.student_courses.push(sc),
            ..s
        },
        EntityView::Department(d) => DbView { departments: s.departments.push(d), ..s },
    }
}

/// Replaces every row whose key equals the entity's key by the entity;
/// rows of other tables and non-matching rows stay as they are. A key
/// that matches no row leaves the store unchanged.
pub open spec fn update_one(s: DbView, e: EntityView) -> DbView {
    match e {
        EntityView::User(u) => DbView {
            users: s.users.map_values(|r: UserView| if r.id == u.id { u } else { r }),
            ..s
        },
        EntityView::StudentAccount(a) => DbView {
            student_accounts: s.student_accounts.map_values(
                |r: StudentAccountView| if r.id == a.id { a } else { r },
            ),
            ..s
        },
        EntityView::TeacherAccount(t) => DbView {
            teacher_accounts: s.teacher_accounts.map_values(
                |r: TeacherAccountView| if r.id == t.id { t } else { r },
            ),
            ..s
        },
        EntityView::Course(c) => DbView {
            courses: s.courses.map_values(|r: CourseView| if r.id == c.id { c } else { r }),
            ..s
        },
        EntityView::StudentCourse(sc) => DbView {
            student_courses: s.student_courses.map_values(
                |r: StudentCourseView| if r.student_id == sc.student_id && r.course_id
                    == sc.course_id {
                    sc
                } else {
                    r
                },
            ),
            ..s
        },
        EntityView::Department(d) => DbView {
            departments: s.departments.map_values(
                |r: DepartmentView| if r.id == d.id { d } else { r },
            ),
            ..s
        },
    }
}

/// The rows of a user table that survive deleting one user id, in order.
pub open spec fn without_user(rows: Seq<UserView>, id: i32) -> Seq<UserView>
    decreases rows.len(),
{
    if rows.len() == 0 {
        Seq::empty()
    } else {
        let rest = without_user(rows.drop_last(), id);
        if rows.last().id == id {
            rest
        } else {
            rest.push(rows.last())
        }
    }
}

/// The student-account rows that survive deleting one account id.
pub open spec fn without_student_account(rows: Seq<StudentAccountView>, id: i32) -> Seq<
    StudentAccountView,
>
    decreases rows.len(),
{
    if rows.len() == 0 {
        Seq::empty()
    } else {
        let rest = without_student_account(rows.drop_last(), id);
        if rows.last().id == id {
            rest
        } else {
            rest.push(rows.last())
        }
    }
}

/// The teacher-account rows that survive deleting one account id.
pub open spec fn without_teacher_account(rows: Seq<TeacherAccountView>, id: i32) -> Seq<
    TeacherAccountView,
>
    decreases rows.len(),
{
    if rows.len() == 0 {
        Seq::empty()
    } else {
        let rest = without_teacher_account(rows.drop_last(), id);
        if rows.last().id == id {
            rest
        } else {
            rest.push(rows.last())
        }
    }
}

/// The course rows that survive deleting one course id.
pub open spec fn without_course(rows: Seq<CourseView>, id: i32) -> Seq<CourseView>
    decreases rows.len(),
{
    if rows.len() == 0 {
        Seq::empty()
    } else {
        let rest = without_course(rows.drop_last(), id);
        if rows.last().id == id {
            rest
        } else {
            rest.push(rows.last())
        }
    }
}

/// The enrollment rows that survive deleting one composite key.
pub open spec fn without_enrollment(
    rows: Seq<StudentCourseView>,
    student_id: i32,
    course_id: i32,
) -> Seq<StudentCourseView>
    decreases rows.len(),
{
    if rows.len() == 0 {
        Seq::empty()
    } else {
        let rest = without_enrollment(rows.drop_last(), student_id, course_id);
        if rows.last().student_id == student_id && rows.last().course_id == course_id {
            rest
        } else {
            rest.push(rows.last())
        }
    }
}

/// The department rows that survive deleting one department id.
pub open spec fn without_department(rows: Seq<DepartmentView>, id: i32) -> Seq<DepartmentView>
    decreases rows.len(),
{
    if rows.len() == 0 {
        Seq::empty()
    } else {
        let rest = without_department(rows.drop_last(), id);
        if rows.last().id == id {
            rest
        } else {
            rest.push(rows.last())
        }
    }
}

/// Removes every row whose key equals the entity's key; the other values
/// carried by the entity are ignored.
pub open spec fn delete_one(s: DbView, e: EntityView) -> DbView {
    match e {
        EntityView::User(u) => DbView { users: without_user(s.users, u.id), ..s },
        EntityView::StudentAccount(a) => DbView {
            student_accounts: without_student_account(s.student_accounts, a.id),
            ..s
        },
        EntityView::TeacherAccount(t) => DbView {
            teacher_accounts: without_teacher_account(s.teacher_accounts, t.id),
            ..s
        },
        EntityView::Course(c) => DbView { courses: without_course(s.courses, c.id), ..s },
        EntityView::StudentCourse(sc) => DbView {
            student_courses: without_enrollment(s.student_courses, sc.student_id, sc.course_id),
            ..s
        },
        EntityView::Department(d) => DbView {
            departments: without_department(s.departments, d.id),
            ..s
        },
    }
}

/// One batch step.
pub open spec fn apply_one(s: DbView, e: EntityView, a: Action) -> DbView {
    match a {
        Action::Insert => insert_one(s, e),
        Action::Update => update_one(s, e),
        Action::Delete => delete_one(s, e),
    }
}

/// Applies a batch of entities left to right.
pub open spec fn apply_all(s: DbView, es: Seq<EntityView>, a: Action) -> DbView
    decreases es.len(),
{
    if es.len() == 0 {
        s
    } else {
        apply_all(apply_one(s, es[0], a), es.drop_first(), a)
    }
}

/// A batch of one entity acts as one step.
pub proof fn lemma_apply_singleton(s: DbView, e: EntityView, a: Action)
    ensures
        apply_all(s, seq![e], a) == apply_one(s, e, a),
{
    let es = seq![e];
    assert(es[0] == e);
    assert(es.drop_first() =~= Seq::<EntityView>::empty());
    assert(apply_all(apply_one(s, e, a), Seq::<EntityView>::empty(), a) == apply_one(s, e, a));
}

/// The user rows selected by a filter list, wrapped into the envelope,
/// in storage order.
pub open spec fn selected_users(
    rows: Seq<UserView>,
    fs: Seq<Filter>,
    comb: Option<Associativity>,
) -> Seq<EntityView>
    decreases rows.len(),
{
    if rows.len() == 0 {
        Seq::empty()
    } else {
        let rest = selected_users(rows.drop_last(), fs, comb);
        if row_selected(fs, comb, EntityView::User(rows.last())) {
            rest.push(EntityView::User(rows.last()))
        } else {
            rest
        }
    }
}

/// The student-account rows selected by a filter list.
pub open spec fn selected_student_accounts(
    rows: Seq<StudentAccountView>,
    fs: Seq<Filter>,
    comb: Option<Associativity>,
) -> Seq<EntityView>
    decreases rows.len(),
{
    if rows.len() == 0 {
        Seq::empty()
    } else {
        let rest = selected_student_accounts(rows.drop_last(), fs, comb);
        if row_selected(fs, comb, EntityView::StudentAccount(rows.last())) {
            rest.push(EntityView::StudentAccount(rows.last()))
        } else {
            rest
        }
    }
}

/// The teacher-account rows selected by a filter list.
pub open spec fn selected_teacher_accounts(
    rows: Seq<TeacherAccountView>,
    fs: Seq<Filter>,
    comb: Option<Associativity>,
) -> Seq<EntityView>
    decreases rows.len(),
{
    if rows.len() == 0 {
        Seq::empty()
    } else {
        let rest = selected_teacher_accounts(rows.drop_last(), fs, comb);
        if row_selected(fs, comb, EntityView::TeacherAccount(rows.last())) {
            rest.push(EntityView::TeacherAccount(rows.last()))
        } else {
            rest
        }
    }
}

/// The course rows selected by a filter list.
pub open spec fn selected_courses(
    rows: Seq<CourseView>,
    fs: Seq<Filter>,
    comb: Option<Associativity>,
) -> Seq<EntityView>
    decreases rows.len(),
{
    if rows.len() == 0 {
        Seq::empty()
    } else {
        let rest = selected_courses(rows.drop_last(), fs, comb);
        if row_selected(fs, comb, EntityView::Course(rows.last())) {
            rest.push(EntityView::Course(rows.last()))
        } else {
            rest
        }
    }
}

/// The enrollment rows selected by a filter list.
pub open spec fn selected_enrollments(
    rows: Seq<StudentCourseView>,
    fs: Seq<Filter>,
    comb: Option<Associativity>,
) -> Seq<EntityView>
    decreases rows.len(),
{
    if rows.len() == 0 {
        Seq::empty()
    } else {
        let rest = selected_enrollments(rows.drop_last(), fs, comb);
        if row_selected(fs, comb, EntityView::StudentCourse(rows.last())) {
            rest.push(EntityView::StudentCourse(rows.last()))
        } else {
            rest
        }
    }
}

/// The department rows selected by a filter list.
pub open spec fn selected_departments(
    rows: Seq<DepartmentView>,
    fs: Seq<Filter>,
    comb: Option<Associativity>,
) -> Seq<EntityView>
    decreases rows.len(),
{
    if rows.len() == 0 {
        Seq::empty()
    } else {
        let rest = selected_departments(rows.drop_last(), fs, comb);
        if row_selected(fs, comb, EntityView::Department(rows.last())) {
            rest.push(EntityView::Department(rows.last()))
        } else {
            rest
        }
    }
}

/// What a `find` on one table returns: the selected rows of that table,
/// in storage order, wrapped into the envelope.
pub open spec fn found_rows(
    s: DbView,
    table: Table,
    fs: Seq<Filter>,
    comb: Option<Associativity>,
) -> Seq<EntityView> {
    match table {
        Table::Users => selected_users(s.users, fs, comb),
        Table::StudentAccount => selected_student_accounts(s.student_accounts, fs, comb),
        Table::TeacherAccount => selected_teacher_accounts(s.teacher_accounts, fs, comb),
        Table::Courses => selected_courses(s.courses, fs, comb),
        Table::StudentCourses => selected_enrollments(s.student_courses, fs, comb),
        Table::Departments => selected_departments(s.departments, fs, comb),
    }
}

impl DbDriver {
    /// Opens an empty store.
    pub fn init() -> (r: Self)
        ensures
            r@.users.len() == 0,
            r@.student_accounts.len() == 0,
            r@.teacher_accounts.len() == 0,
            r@.courses.len() == 0,
            r@.student_courses.len() == 0,
            r@.departments.len() == 0,
    {
        DbDriver {
            users: Vec::new(),
            student_accounts: Vec::new(),
            teacher_accounts: Vec::new(),
            courses: Vec::new(),
            student_courses: Vec::new(),
            departments: Vec::new(),
        }
    }

    /// Returns the rows of one table that a filter list selects under a
    /// combinator, in storage order. An empty filter list returns the
    /// whole table; a missing combinator means `And`.
    pub fn find(&self, table: Table, filters: Vec<Filter>, comb: Option<Associativity>) -> (r:
        Result<Vec<ReceiverType>, DbError>)
        ensures
            match r {
                Ok(rows) => rows.deep_view() == found_rows(self@, table, filters@, comb),
                Err(_) => false,
            },
    {
        let mut out: Vec<ReceiverType> = Vec::new();
        match table {
            Table::Users => {
                let mut j: usize = 0;
                while j < self.users.len()
                    invariant
                        j <= self.users@.len(),
                        out.deep_view() == selected_users(
                            self.users.deep_view().subrange(0, j as int),
                            filters@,
                            comb,
                        ),
                    decreases self.users@.len() - j,
                {
                    let wrapped = ReceiverType::User(self.users[j].clone());
                    proof {
                        let dv = self.users.deep_view();
                        assert(dv[j as int] == self.users@[j as int]@);
                        assert(dv.subrange(0, j + 1).drop_last() =~= dv.subrange(0, j as int));
                        assert(dv.subrange(0, j + 1).last() == dv[j as int]);
                    }
                    if eval_filters(&filters, comb, &wrapped) {
                        out.push(wrapped);
                    }
                    j += 1;
                }
                proof {
                    assert(self.users.deep_view().subrange(0, self.users@.len() as int)
                        =~= self.users.deep_view());
                }
            },
            Table::StudentAccount => {
                let mut j: usize = 0;
                while j < self.student_accounts.len()
                    invariant
                        j <= self.student_accounts@.len(),
                        out.deep_view() == selected_student_accounts(
                            self.student_accounts.deep_view().subrange(0, j as int),
                            filters@,
                            comb,
                        ),
                    decreases self.student_accounts@.len() - j,
                {
                    let wrapped = ReceiverType::StudentAccount(self.student_accounts[j].clone());
                    proof {
                        let dv = self.student_accounts.deep_view();
                        assert(dv[j as int] == self.student_accounts@[j as int]@);
                        assert(dv.subrange(0, j + 1).drop_last() =~= dv.subrange(0, j as int));
                        assert(dv.subrange(0, j + 1).last() == dv[j as int]);
                    }
                    if eval_filters(&filters, comb, &wrapped) {
                        out.push(wrapped);
                    }
                    j += 1;
                }
                proof {
                    assert(self.student_accounts.deep_view().subrange(
                        0,
                        self.student_accounts@.len() as int,
                    ) =~= self.student_accounts.deep_view());
                }
            },
            Table::TeacherAccount => {
                let mut j: usize = 0;
                while j < self.teacher_accounts.len()
                    invariant
                        j <= self.teacher_accounts@.len(),
                        out.deep_view() == selected_teacher_accounts(
                            self.teacher_accounts.deep_view().subrange(0, j as int),
                            filters@,
                            comb,
                        ),
                    decreases self.teacher_accounts@.len() - j,
                {
                    let wrapped = ReceiverType::TeacherAccount(self.teacher_accounts[j].clone());
                    proof {
                        let dv = self.teacher_accounts.deep_view();
                        assert(dv[j as int] == self.teacher_accounts@[j as int]@);
                        assert(dv.subrange(0, j + 1).drop_last() =~= dv.subrange(0, j as int));
                        assert(dv.subrange(0, j + 1).last() == dv[j as int]);
                    }
                    if eval_filters(&filters, comb, &wrapped) {
                        out.push(wrapped);
                    }
                    j += 1;
                }
                proof {
                    assert(self.teacher_accounts.deep_view().subrange(
                        0,
                        self.teacher_accounts@.len() as int,
                    ) =~= self.teacher_accounts.deep_view());
                }
            },
            Table::Courses => {
                let mut j: usize = 0;
                while j < self.courses.len()
                    invariant
                        j <= self.courses@.len(),
                        out.deep_view() == selected_courses(
                            self.courses.deep_view().subrange(0, j as int),
                            filters@,
                            comb,
                        ),
                    decreases self.courses@.len() - j,
                {
                    let wrapped = ReceiverType::Course(self.courses[j].clone());
                    proof {
                        let dv = self.courses.deep_view();
                        assert(dv[j as int] == self.courses@[j as int]@);
                        assert(dv.subrange(0, j + 1).drop_last() =~= dv.subrange(0, j as int));
                        assert(dv.subrange(0, j + 1).last() == dv[j as int]);
                    }
                    if eval_filters(&filters, comb, &wrapped) {
                        out.push(wrapped);
                    }
                    j += 1;
                }
                proof {
                    assert(self.courses.deep_view().subrange(0, self.courses@.len() as int)
                        =~= self.courses.deep_view());
                }
            },
            Table::StudentCourses => {
                let mut j: usize = 0;
                while j < self.student_courses.len()
                    invariant
                        j <= self.student_courses@.len(),
                        out.deep_view() == selected_enrollments(
                            self.student_courses.deep_view().subrange(0, j as int),
                            filters@,
                            comb,
                        ),
                    decreases self.student_courses@.len() - j,
                {
                    let wrapped = ReceiverType::StudentCourse(self.student_courses[j].clone());
                    proof {
                        let dv = self.student_courses.deep_view();
                        assert(dv[j as int] == self.student_courses@[j as int]@);
                        assert(dv.subrange(0, j + 1).drop_last() =~= dv.subrange(0, j as int));
                        assert(dv.subrange(0, j + 1).last() == dv[j as int]);
                    }
                    if eval_filters(&filters, comb, &wrapped) {
                        out.push(wrapped);
                    }
                    j += 1;
                }
                proof {
                    assert(self.student_courses.deep_view().subrange(
                        0,
                        self.student_courses@.len() as int,
                    ) =~= self.student_courses.deep_view());
                }
            },
            Table::Departments => {
                let mut j: usize = 0;
                while j < self.departments.len()
                    invariant
                        j <= self.departments@.len(),
                        out.deep_view() == selected_departments(
                            self.departments.deep_view().subrange(0, j as int),
                            filters@,
                            comb,
                        ),
                    decreases self.departments@.len() - j,
                {
                    let wrapped = ReceiverType::Department(self.departments[j].clone());
                    proof {
                        let dv = self.departments.deep_view();
                        assert(dv[j as int] == self.departments@[j as int]@);
                        assert(dv.subrange(0, j + 1).drop_last() =~= dv.subrange(0, j as int));
                        assert(dv.subrange(0, j + 1).last() == dv[j as int]);
                    }
                    if eval_filters(&filters, comb, &wrapped) {
                        out.push(wrapped);
                    }
                    j += 1;
                }
                proof {
                    assert(self.departments.deep_view().subrange(0, self.departments@.len() as int)
                        =~= self.departments.deep_view());
                }
            },
        }
        Ok(out)
    }

    /// Appends each entity of the batch to its table, in order.
    pub fn insert(&mut self, entities: Vec<ReceiverType>) -> (r: Result<(), DbError>)
        ensures
            r is Ok,
            final(self)@ == apply_all(old(self)@, entities.deep_view(), Action::Insert),
    {
        self.apply_batch(entities, Action::Insert);
        Ok(())
    }

    /// Replaces, for each entity of the batch in order, every row whose
    /// key equals the entity's key by the entity.
    pub fn update(&mut self, entities: Vec<ReceiverType>) -> (r: Result<(), DbError>)
        ensures
            r is Ok,
            final(self)@ == apply_all(old(self)@, entities.deep_view(), Action::Update),
    {
        self.apply_batch(entities, Action::Update);
        Ok(())
    }

    /// Removes, for each entity of the batch in order, every row whose
    /// key equals the entity's key.
    pub fn delete(&mut self, entities: Vec<ReceiverType>) -> (r: Result<(), DbError>)
        ensures
            r is Ok,
            final(self)@ == apply_all(old(self)@, entities.deep_view(), Action::Delete),
    {
        self.apply_batch(entities, Action::Delete);
        Ok(())
    }

    /// Applies a mutation batch left to right.
    fn apply_batch(&mut self, entities: Vec<ReceiverType>, a: Action)
        ensures
            final(self)@ == apply_all(old(self)@, entities.deep_view(), a),
    {
        let n = entities.len();
        proof {
            assert(entities.deep_view().subrange(0, n as int) =~= entities.deep_view());
        }
        let mut i: usize = 0;
        while i < n
            invariant
                n == entities@.len(),
                i <= n,
                apply_all(old(self)@, entities.deep_view(), a) == apply_all(
                    self@,
                    entities.deep_view().subrange(i as int, n as int),
                    a,
                ),
            decreases n - i,
        {
            proof {
                let dv = entities.deep_view();
                assert(dv[i as int] == entities@[i as int]@);
                assert(dv.subrange(i as int, n as int)[0] == dv[i as int]);
                assert(dv.subrange(i as int, n as int).drop_first() =~= dv.subrange(
                    i + 1,
                    n as int,
                ));
            }
            self.apply_entity(&entities[i], a);
            i += 1;
        }
        proof {
            assert(entities.deep_view().subrange(n as int, n as int)
                =~= Seq::<EntityView>::empty());
        }
    }

    /// Applies one mutation step.
    fn apply_entity(&mut self, e: &ReceiverType, a: Action)
        ensures
            final(self)@ == apply_one(old(self)@, e@, a),
    {
        match a {
            Action::Insert => {
                match e {
                    ReceiverType::User(u) => {
                        self.users.push(u.clone());
                        assert(self.users.deep_view() =~= old(self).users.deep_view().push(u@));
                    },
                    ReceiverType::StudentAccount(x) => {
                        self.student_accounts.push(x.clone());
                        assert(self.student_accounts.deep_view() =~= old(
                            self,
                        ).student_accounts.deep_view().push(x@));
                    },
                    ReceiverType::TeacherAccount(x) => {
                        self.teacher_accounts.push(x.clone());
                        assert(self.teacher_accounts.deep_view() =~= old(
                            self,
                        ).teacher_accounts.deep_view().push(x@));
                    },
                    ReceiverType::Course(x) => {
                        self.courses.push(x.clone());
                        assert(self.courses.deep_view() =~= old(self).courses.deep_view().push(
                            x@,
                        ));
                    },
                    ReceiverType::StudentCourse(x) => {
                        self.student_courses.push(x.clone());
                        assert(self.student_courses.deep_view() =~= old(
                            self,
                        ).student_courses.deep_view().push(x@));
                    },
                    ReceiverType::Department(x) => {
                        self.departments.push(x.clone());
                        assert(self.departments.deep_view() =~= old(
                            self,
                        ).departments.deep_view().push(x@));
                    },
                }
                assert(final(self)@ =~= insert_one(old(self)@, e@));
            },
            Action::Update => {
                match e {
                    ReceiverType::User(u) => {
                        update_users(&mut self.users, u);
                    },
                    ReceiverType::StudentAccount(x) => {
                        update_student_accounts(&mut self.student_accounts, x);
                    },
                    ReceiverType::TeacherAccount(x) => {
                        update_teacher_accounts(&mut self.teacher_accounts, x);
                    },
                    ReceiverType::Course(x) => {
                        update_courses_rows(&mut self.courses, x);
                    },
                    ReceiverType::StudentCourse(x) => {
                        update_enrollments(&mut self.student_courses, x);
                    },
                    ReceiverType::Department(x) => {
                        update_departments(&mut self.departments, x);
                    },
                }
                assert(final(self)@ =~= update_one(old(self)@, e@));
            },
            Action::Delete => {
                match e {
                    ReceiverType::User(u) => {
                        delete_users(&mut self.users, u.id);
                    },
                    ReceiverType::StudentAccount(x) => {
                        delete_student_accounts(&mut self.student_accounts, x.id);
                    },
                    ReceiverType::TeacherAccount(x) => {
                        delete_teacher_accounts(&mut self.teacher_accounts, x.id);
                    },
                    ReceiverType::Course(x) => {
                        delete_courses_rows(&mut self.courses, x.id);
                    },
                    ReceiverType::StudentCourse(x) => {
                        delete_enrollments(&mut self.student_courses, x.student_id, x.course_id);
                    },
                    ReceiverType::Department(x) => {
                        delete_departments(&mut self.departments, x.id);
                    },
                }
                assert(final(self)@ =~= delete_one(old(self)@, e@));
            },
        }
    }
}

/// Replaces every user row with the entity's id by the entity.
fn update_users(rows: &mut Vec<User>, x: &User)
    ensures
        final(rows).deep_view() == old(rows).deep_view().map_values(
            |r: UserView| if r.id == x@.id {
                x@
            } else {
                r
            },
        ),
{
    let n = rows.len();
    let mut out: Vec<User> = Vec::new();
    let mut j: usize = 0;
    while j < n
        invariant
            n == rows@.len(),
            j <= n,
            out@.len() == j,
            forall|k: int|
                0 <= k < j ==> out@[k]@ == (if rows@[k]@.id == x@.id {
                    x@
                } else {
                    rows@[k]@
                }),
        decreases n - j,
    {
        if rows[j].id == x.id {
            out.push(x.clone());
        } else {
            out.push(rows[j].clone());
        }
        j += 1;
    }
    *rows = out;
    assert forall|k: int| 0 <= k < n implies rows.deep_view()[k] == old(
        rows,
    ).deep_view().map_values(
        |r: UserView| if r.id == x@.id {
            x@
        } else {
            r
        },
    )[k] by {
        assert(rows@[k]@ == (if old(rows)@[k]@.id == x@.id {
            x@
        } else {
            old(rows)@[k]@
        }));
    }
    assert(rows.deep_view() =~= old(rows).deep_view().map_values(
        |r: UserView| if r.id == x@.id {
            x@
        } else {
            r
        },
    ));
}

/// Replaces every student-account row with the entity's id by the entity.
fn update_student_accounts(rows: &mut Vec<StudentAccount>, x: &StudentAccount)
    ensures
        final(rows).deep_view() == old(rows).deep_view().map_values(
            |r: StudentAccountView| if r.id == x@.id {
                x@
            } else {
                r
            },
        ),
{
    let n = rows.len();
    let mut out: Vec<StudentAccount> = Vec::new();
    let mut j: usize = 0;
    while j < n
        invariant
            n == rows@.len(),
            j <= n,
            out@.len() == j,
            forall|k: int|
                0 <= k < j ==> out@[k]@ == (if rows@[k]@.id == x@.id {
                    x@
                } else {
                    rows@[k]@
                }),
        decreases n - j,
    {
        if rows[j].id == x.id {
            out.push(x.clone());
        } else {
            out.push(rows[j].clone());
        }
        j += 1;
    }
    *rows = out;
    assert forall|k: int| 0 <= k < n implies rows.deep_view()[k] == old(
        rows,
    ).deep_view().map_values(
        |r: StudentAccountView| if r.id == x@.id {
            x@
        } else {
            r
        },
    )[k] by {
        assert(rows@[k]@ == (if old(rows)@[k]@.id == x@.id {
            x@
        } else {
            old(rows)@[k]@
        }));
    }
    assert(rows.deep_view() =~= old(rows).deep_view().map_values(
        |r: StudentAccountView| if r.id == x@.id {
            x@
        } else {
            r
        },
    ));
}

/// Replaces every teacher-account row with the entity's id by the entity.
fn update_teacher_accounts(rows: &mut Vec<TeacherAccount>, x: &TeacherAccount)
    ensures
        final(rows).deep_view() == old(rows).deep_view().map_values(
            |r: TeacherAccountView| if r.id == x@.id {
                x@
            } else {
                r
            },
        ),
{
    let n = rows.len();
    let mut out: Vec<TeacherAccount> = Vec::new();
    let mut j: usize = 0;
    while j < n
        invariant
            n == rows@.len(),
            j <= n,
            out@.len() == j,
            forall|k: int|
                0 <= k < j ==> out@[k]@ == (if rows@[k]@.id == x@.id {
                    x@
                } else {
                    rows@[k]@
                }),
        decreases n - j,
    {
        if rows[j].id == x.id {
            out.push(x.clone());
        } else {
            out.push(rows[j].clone());
        }
        j += 1;
    }
    *rows = out;
    assert forall|k: int| 0 <= k < n implies rows.deep_view()[k] == old(
        rows,
    ).deep_view().map_values(
        |r: TeacherAccountView| if r.id == x@.id {
            x@
        } else {
            r
        },
    )[k] by {
        assert(rows@[k]@ == (if old(rows)@[k]@.id == x@.id {
            x@
        } else {
            old(rows)@[k]@
        }));
    }
    assert(rows.deep_view() =~= old(rows).deep_view().map_values(
        |r: TeacherAccountView| if r.id == x@.id {
            x@
        } else {
            r
        },
    ));
}

/// Replaces every course row with the entity's id by the entity.
fn update_courses_rows(rows: &mut Vec<Course>, x: &Course)
    ensures
        final(rows).deep_view() == old(rows).deep_view().map_values(
            |r: CourseView| if r.id == x@.id {
                x@
            } else {
                r
            },
        ),
{
    let n = rows.len();
    let mut out: Vec<Course> = Vec::new();
    let mut j: usize = 0;
    while j < n
        invariant
            n == rows@.len(),
            j <= n,
            out@.len() == j,
            forall|k: int|
                0 <= k < j ==> out@[k]@ == (if rows@[k]@.id == x@.id {
                    x@
                } else {
                    rows@[k]@
                }),
        decreases n - j,
    {
        if rows[j].id == x.id {
            out.push(x.clone());
        } else {
            out.push(rows[j].clone());
        }
        j += 1;
    }
    *rows = out;
    assert forall|k: int| 0 <= k < n implies rows.deep_view()[k] == old(
        rows,
    ).deep_view().map_values(
        |r: CourseView| if r.id == x@.id {
            x@
        } else {
            r
        },
    )[k] by {
        assert(rows@[k]@ == (if old(rows)@[k]@.id == x@.id {
            x@
        } else {
            old(rows)@[k]@
        }));
    }
    assert(rows.deep_view() =~= old(rows).deep_view().map_values(
        |r: CourseView| if r.id == x@.id {
            x@
        } else {
            r
        },
    ));
}

/// Replaces every enrollment row with the entity's composite key by the
/// entity.
fn update_enrollments(rows: &mut Vec<StudentCourse>, x: &StudentCourse)
    ensures
        final(rows).deep_view() == old(rows).deep_view().map_values(
            |r: StudentCourseView| if r.student_id == x@.student_id && r.course_id
                == x@.course_id {
                x@
            } else {
                r
            },
        ),
{
    let n = rows.len();
    let mut out: Vec<StudentCourse> = Vec::new();
    let mut j: usize = 0;
    while j < n
        invariant
            n == rows@.len(),
            j <= n,
            out@.len() == j,
            forall|k: int|
                0 <= k < j ==> out@[k]@ == (if rows@[k]@.student_id == x@.student_id
                    && rows@[k]@.course_id == x@.course_id {
                    x@
                } else {
                    rows@[k]@
                }),
        decreases n - j,
    {
        if rows[j].student_id == x.student_id && rows[j].course_id == x.course_id {
            out.push(x.clone());
        } else {
            out.push(rows[j].clone());
        }
        j += 1;
    }
    *rows = out;
    assert forall|k: int| 0 <= k < n implies rows.deep_view()[k] == old(
        rows,
    ).deep_view().map_values(
        |r: StudentCourseView| if r.student_id == x@.student_id && r.course_id == x@.course_id {
            x@
        } else {
            r
        },
    )[k] by {
        assert(rows@[k]@ == (if old(rows)@[k]@.student_id == x@.student_id && old(
            rows,
        )@[k]@.course_id == x@.course_id {
            x@
        } else {
            old(rows)@[k]@
        }));
    }
    assert(rows.deep_view() =~= old(rows).deep_view().map_values(
        |r: StudentCourseView| if r.student_id == x@.student_id && r.course_id == x@.course_id {
            x@
        } else {
            r
        },
    ));
}

/// Replaces every department row with the entity's id by the entity.
fn update_departments(rows: &mut Vec<Department>, x: &Department)
    ensures
        final(rows).deep_view() == old(rows).deep_view().map_values(
            |r: DepartmentView| if r.id == x@.id {
                x@
            } else {
                r
            },
        ),
{
    let n = rows.len();
    let mut out: Vec<Department> = Vec::new();
    let mut j: usize = 0;
    while j < n
        invariant
            n == rows@.len(),
            j <= n,
            out@.len() == j,
            forall|k: int|
                0 <= k < j ==> out@[k]@ == (if rows@[k]@.id == x@.id {
                    x@
                } else {
                    rows@[k]@
                }),
        decreases n - j,
    {
        if rows[j].id == x.id {
            out.push(x.clone());
        } else {
            out.push(rows[j].clone());
        }
        j += 1;
    }
    *rows = out;
    assert forall|k: int| 0 <= k < n implies rows.deep_view()[k] == old(
        rows,
    ).deep_view().map_values(
        |r: DepartmentView| if r.id == x@.id {
            x@
        } else {
            r
        },
    )[k] by {
        assert(rows@[k]@ == (if old(rows)@[k]@.id == x@.id {
            x@
        } else {
            old(rows)@[k]@
        }));
    }
    assert(rows.deep_view() =~= old(rows).deep_view().map_values(
        |r: DepartmentView| if r.id == x@.id {
            x@
        } else {
            r
        },
    ));
}

/// Removes every user row with the given id.
fn delete_users(rows: &mut Vec<User>, id: i32)
    ensures
        final(rows).deep_view() == without_user(old(rows).deep_view(), id),
{
    let n = rows.len();
    let mut out: Vec<User> = Vec::new();
    let mut j: usize = 0;
    while j < n
        invariant
            n == rows@.len(),
            j <= n,
            out.deep_view() == without_user(rows.deep_view().subrange(0, j as int), id),
        decreases n - j,
    {
        proof {
            let dv = rows.deep_view();
            assert(dv[j as int] == rows@[j as int]@);
            assert(dv.subrange(0, j + 1).drop_last() =~= dv.subrange(0, j as int));
            assert(dv.subrange(0, j + 1).last() == dv[j as int]);
        }
        if rows[j].id != id {
            out.push(rows[j].clone());
        }
        j += 1;
    }
    proof {
        assert(rows.deep_view().subrange(0, n as int) =~= rows.deep_view());
    }
    *rows = out;
}

/// Removes every student-account row with the given id.
fn delete_student_accounts(rows: &mut Vec<StudentAccount>, id: i32)
    ensures
        final(rows).deep_view() == without_student_account(old(rows).deep_view(), id),
{
    let n = rows.len();
    let mut out: Vec<StudentAccount> = Vec::new();
    let mut j: usize = 0;
    while j < n
        invariant
            n == rows@.len(),
            j <= n,
            out.deep_view() == without_student_account(
                rows.deep_view().subrange(0, j as int),
                id,
            ),
        decreases n - j,
    {
        proof {
            let dv = rows.deep_view();
            assert(dv[j as int] == rows@[j as int]@);
            assert(dv.subrange(0, j + 1).drop_last() =~= dv.subrange(0, j as int));
            assert(dv.subrange(0, j + 1).last() == dv[j as int]);
        }
        if rows[j].id != id {
            out.push(rows[j].clone());
        }
        j += 1;
    }
    proof {
        assert(rows.deep_view().subrange(0, n as int) =~= rows.deep_view());
    }
    *rows = out;
}

/// Removes every teacher-account row with the given id.
fn delete_teacher_accounts(rows: &mut Vec<TeacherAccount>, id: i32)
    ensures
        final(rows).deep_view() == without_teacher_account(old(rows).deep_view(), id),
{
    let n = rows.len();
    let mut out: Vec<TeacherAccount> = Vec::new();
    let mut j: usize = 0;
    while j < n
        invariant
            n == rows@.len(),
            j <= n,
            out.deep_view() == without_teacher_account(
                rows.deep_view().subrange(0, j as int),
                id,
            ),
        decreases n - j,
    {
        proof {
            let dv = rows.deep_view();
            assert(dv[j as int] == rows@[j as int]@);
            assert(dv.subrange(0, j + 1).drop_last() =~= dv.subrange(0, j as int));
            assert(dv.subrange(0, j + 1).last() == dv[j as int]);
        }
        if rows[j].id != id {
            out.push(rows[j].clone());
        }
        j += 1;
    }
    proof {
        assert(rows.deep_view().subrange(0, n as int) =~= rows.deep_view());
    }
    *rows = out;
}

/// Removes every course row with the given id.
fn delete_courses_rows(rows: &mut Vec<Course>, id: i32)
    ensures
        final(rows).deep_view() == without_course(old(rows).deep_view(), id),
{
    let n = rows.len();
    let mut out: Vec<Course> = Vec::new();
    let mut j: usize = 0;
    while j < n
        invariant
            n == rows@.len(),
            j <= n,
            out.deep_view() == without_course(rows.deep_view().subrange(0, j as int), id),
        decreases n - j,
    {
        proof {
            let dv = rows.deep_view();
            assert(dv[j as int] == rows@[j as int]@);
            assert(dv.subrange(0, j + 1).drop_last() =~= dv.subrange(0, j as int));
            assert(dv.subrange(0, j + 1).last() == dv[j as int]);
        }
        if rows[j].id != id {
            out.push(rows[j].clone());
        }
        j += 1;
    }
    proof {
        assert(rows.deep_view().subrange(0, n as int) =~= rows.deep_view());
    }
    *rows = out;
}

/// Removes every enrollment row with the given composite key.
fn delete_enrollments(rows: &mut Vec<StudentCourse>, student_id: i32, course_id: i32)
    ensures
        final(rows).deep_view() == without_enrollment(
            old(rows).deep_view(),
            student_id,
            course_id,
        ),
{
    let n = rows.len();
    let mut out: Vec<StudentCourse> = Vec::new();
    let mut j: usize = 0;
    while j < n
        invariant
            n == rows@.len(),
            j <= n,
            out.deep_view() == without_enrollment(
                rows.deep_view().subrange(0, j as int),
                student_id,
                course_id,
            ),
        decreases n - j,
    {
        proof {
            let dv = rows.deep_view();
            assert(dv[j as int] == rows@[j as int]@);
            assert(dv.subrange(0, j + 1).drop_last() =~= dv.subrange(0, j as int));
            assert(dv.subrange(0, j + 1).last() == dv[j as int]);
        }
        if !(rows[j].student_id == student_id && rows[j].course_id == course_id) {
            out.push(rows[j].clone());
        }
        j += 1;
    }
    proof {
        assert(rows.deep_view().subrange(0, n as int) =~= rows.deep_view());
    }
    *rows = out;
}

/// Removes every department row with the given id.
fn delete_departments(rows: &mut Vec<Department>, id: i32)
    ensures
        final(rows).deep_view() == without_department(old(rows).deep_view(), id),
{
    let n = rows.len();
    let mut out: Vec<Department> = Vec::new();
    let mut j: usize = 0;
    while j < n
        invariant
            n == rows@.len(),
            j <= n,
            out.deep_view() == without_department(rows.deep_view().subrange(0, j as int), id),
        decreases n - j,
    {
        proof {
            let dv = rows.deep_view();
            assert(dv[j as int] == rows@[j as int]@);
            assert(dv.subrange(0, j + 1).drop_last() =~= dv.subrange(0, j as int));
            assert(dv.subrange(0, j + 1).last() == dv[j as int]);
        }
        if rows[j].id != id {
            out.push(rows[j].clone());
        }
        j += 1;
    }
    proof {
        assert(rows.deep_view().subrange(0, n as int) =~= rows.deep_view());
    }
    *rows = out;
}

} // verus!
