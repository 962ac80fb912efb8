//! Laws of the session service, each proved from the contracts and spec
//! functions the operations themselves are specified with.

use vstd::prelude::*;
use crate::connection::ServerError;
use crate::connection::hashed_registration;
use crate::connection::register_error;
use crate::db_driver::DbView;
use crate::db_driver::apply_all;
use crate::db_driver::insert_one;
use crate::db_driver::lemma_apply_singleton;
use crate::db_driver::update_one;
use crate::models::Action;
use crate::models::CourseView;
use crate::models::DepartmentView;
use crate::models::EntityView;
use crate::models::Role;
use crate::models::TeacherAccountView;
use crate::models::UserView;
use crate::models::role_of;
use crate::mutations::course_mutation_error;
use crate::mutations::enrollment_of;
use crate::mutations::wrap_courses;
use crate::queries::users_with_email;
use crate::search::card_query_hit;
use crate::search::first_department;
use crate::search::first_teacher;
use crate::search::first_user;
use crate::search::joined_cards;
use crate::strings::lower_char;
use crate::strings::lower_seq;
use crate::validate::is_local_dot_char;
use crate::validate::valid_email;

verus! {

/// A string the institutional email pattern accepts is already
/// ASCII-lowercase: lowercasing it changes nothing.
proof fn lemma_valid_email_lowercase(s: Seq<char>)
    requires
        valid_email(s),
    ensures
        lower_seq(s) == s,
{
    assert forall|i: int| 0 <= i < s.len() implies lower_seq(s)[i] == s[i] by {
        if i < s.len() - 9 {
            assert(is_local_dot_char(s[i]));
            assert(lower_char(s[i]) == s[i]);
        } else {
            assert(lower_char(s[s.len() - 9]) == s[s.len() - 9]);
            assert(lower_char(s[s.len() - 8]) == s[s.len() - 8]);
            assert(lower_char(s[s.len() - 7]) == s[s.len() - 7]);
            assert(lower_char(s[s.len() - 6]) == s[s.len() - 6]);
            assert(lower_char(s[s.len() - 5]) == s[s.len() - 5]);
            assert(lower_char(s[s.len() - 4]) == s[s.len() - 4]);
            assert(lower_char(s[s.len() - 3]) == s[s.len() - 3]);
            assert(lower_char(s[s.len() - 2]) == s[s.len() - 2]);
            assert(lower_char(s[s.len() - 1]) == s[s.len() - 1]);
        }
    }
    assert(lower_seq(s) =~= s);
}

/// Law: registering a second account with an email equal, compared
/// case-insensitively, to one a successful registration just stored is
/// rejected as taken — whatever salt hashed the first credential — and
/// the store then holds exactly one row with that email. The second
/// request is otherwise valid, so the uniqueness check is what fires;
/// and by the registration contract the failure writes nothing.
pub proof fn lemma_duplicate_email_rejected(
    users: Seq<UserView>,
    u1: UserView,
    salt: Seq<char>,
    u2: UserView,
)
    requires
        register_error(None::<UserView>, users, u1) is None,
        lower_seq(u2.email) == lower_seq(u1.email),
        u2.username.len() > 0,
        valid_email(u2.email),
        u2.phone.len() == 0 || crate::validate::valid_phone(u2.phone),
        crate::validate::valid_password(u2.password),
    ensures
        ({
            let stored = users.push(hashed_registration(u1, salt));
            register_error(None::<UserView>, stored, u2) == Some(ServerError::EmailTaken)
                && users_with_email(stored, lower_seq(u2.email)).len() == 1
        }),
{
    let stored = users.push(hashed_registration(u1, salt));
    assert(valid_email(u1.email));
    lemma_valid_email_lowercase(u1.email);
    assert(hashed_registration(u1, salt).email == u1.email);
    assert(stored.drop_last() =~= users);
    assert(stored.last() == hashed_registration(u1, salt));
    assert(lower_seq(u2.email) == u1.email);
    assert(users_with_email(users, lower_seq(u1.email)).len() == 0);
    assert(users_with_email(stored, lower_seq(u2.email)) =~= users_with_email(
        users,
        lower_seq(u2.email),
    ).push(hashed_registration(u1, salt)));
}

/// Law: a registration whose password misses any of the strength rules —
/// length at least eight, a lowercase letter, an uppercase letter, a
/// digit, a special character — is rejected with the password failure,
/// once the session, username, email and phone checks pass.
pub proof fn lemma_weak_password_rejected(users: Seq<UserView>, u: UserView)
    requires
        u.username.len() > 0,
        valid_email(u.email),
        u.phone.len() == 0 || crate::validate::valid_phone(u.phone),
        !crate::validate::valid_password(u.password),
    ensures
        register_error(None::<UserView>, users, u) == Some(ServerError::WeakPassword),
{
}

/// Law: a teacher whose course batch holds any course with another
/// owner's id has the whole batch rejected as not owned — the courses
/// they do own included — and by the contracts of course removal and
/// update the failing call writes nothing.
pub proof fn lemma_unowned_batch_rejected(sess: UserView, cs: Seq<CourseView>, k: int)
    requires
        role_of(sess.role) == Role::Teacher,
        0 <= k < cs.len(),
        cs[k].teacher_id != sess.id,
    ensures
        course_mutation_error(Some(sess), cs) == Some(ServerError::NotOwner),
{
    assert(cs[k].teacher_id != sess.id);
}

/// Law: the enrollment derived for a student and a course carries the
/// student's own id and the course's id, the not-yet-graded sentinel,
/// and the semester of the enrollment month: `Fall` exactly for the
/// calendar months six through twelve, `Spring` otherwise.
pub proof fn lemma_enrollment_record(c: CourseView, student_id: i32, month: u32)
    ensures
        enrollment_of(c, student_id, month).student_id == student_id,
        enrollment_of(c, student_id, month).course_id == c.id,
        enrollment_of(c, student_id, month).grade == -1,
        6 <= month <= 12 ==> enrollment_of(c, student_id, month).semester == "Fall"@,
        !(6 <= month <= 12) ==> enrollment_of(c, student_id, month).semester == "Spring"@,
{
}

/// A single-course registration batch acts on the store as exactly one
/// insertion of that course; with it, the registration contract hands
/// the round-trip law below its starting state.
pub proof fn lemma_register_single_course(s: DbView, c: CourseView)
    ensures
        apply_all(s, wrap_courses(seq![c]), Action::Insert) == insert_one(
            s,
            EntityView::Course(c),
        ),
{
    assert(wrap_courses(seq![c]) =~= seq![EntityView::Course(c)]);
    lemma_apply_singleton(s, EntityView::Course(c), Action::Insert);
}

/// Law: registering one course into a store with no courses and then
/// searching with any query that hits its resolved card returns exactly
/// one card, whose course component is the registered record itself —
/// provided the course's teacher account, that teacher's department and
/// the instructor's user row all resolve.
pub proof fn lemma_course_round_trip(
    s: DbView,
    c: CourseView,
    t: TeacherAccountView,
    d: DepartmentView,
    u: UserView,
    q: Seq<char>,
)
    requires
        s.courses.len() == 0,
        first_teacher(s.teacher_accounts, c.teacher_id) == Some(t),
        first_department(s.departments, t.dept_id) == Some(d),
        first_user(s.users, t.teacher_id) == Some(u),
        card_query_hit(q, c, t, d, u),
    ensures
        ({
            let s2 = insert_one(s, EntityView::Course(c));
            joined_cards(s2.courses, s2.teacher_accounts, s2.departments, s2.users, q) == seq![
                (c, t, d, u),
            ]
        }),
{
    let s2 = insert_one(s, EntityView::Course(c));
    assert(s2.courses =~= seq![c]);
    assert(s2.courses.drop_last() =~= Seq::<CourseView>::empty());
    assert(joined_cards(
        s2.courses.drop_last(),
        s2.teacher_accounts,
        s2.departments,
        s2.users,
        q,
    ) =~= Seq::<(CourseView, TeacherAccountView, DepartmentView, UserView)>::empty());
    assert(s2.courses.last() == c);
    assert(joined_cards(s2.courses, s2.teacher_accounts, s2.departments, s2.users, q) =~= seq![
        (c, t, d, u),
    ]);
}

/// Law: marking a user suspended is idempotent: rewriting the row a
/// second time with the flag set leaves the store exactly as the first
/// write left it, and every row with the target id is suspended.
pub proof fn lemma_suspend_idempotent(s: DbView, u: UserView)
    ensures
        ({
            let marked = UserView { suspended: true, ..u };
            let s2 = update_one(s, EntityView::User(marked));
            update_one(s2, EntityView::User(marked)) == s2 && (forall|j: int|
                0 <= j < s2.users.len() && (#[trigger] s2.users[j]).id == u.id
                    ==> s2.users[j].suspended)
        }),
{
    let marked = UserView { suspended: true, ..u };
    let s2 = update_one(s, EntityView::User(marked));
    let s3 = update_one(s2, EntityView::User(marked));
    assert forall|j: int| 0 <= j < s2.users.len() implies s3.users[j] == s2.users[j] by {
        assert(s2.users[j] == (if s.users[j].id == marked.id {
            marked
        } else {
            s.users[j]
        }));
    }
    assert(s3.users =~= s2.users);
    assert(s3 =~= s2);
}

/// Law: suspending an already-suspended user changes nothing at all:
/// when every stored row with the target id already equals the supplied
/// record with the flag set — as it does when the row was fetched and
/// handed back, the way the suspension routes drive the store — the
/// rewrite returns the store unchanged, every other field included.
pub proof fn lemma_suspend_already_suspended(s: DbView, u: UserView)
    requires
        forall|j: int|
            0 <= j < s.users.len() && (#[trigger] s.users[j]).id == u.id ==> s.users[j] == (
            UserView { suspended: true, ..u }),
    ensures
        update_one(s, EntityView::User((UserView { suspended: true, ..u }))) == s,
{
    let marked = UserView { suspended: true, ..u };
    let s2 = update_one(s, EntityView::User(marked));
    assert forall|j: int| 0 <= j < s.users.len() implies s2.users[j] == s.users[j] by {
        assert(s2.users[j] == (if s.users[j].id == marked.id {
            marked
        } else {
            s.users[j]
        }));
    }
    assert(s2.users =~= s.users);
    assert(s2 =~= s);
}

/// Law: signing out never fails and is idempotent: the sign-out contract
/// pins the session to cleared and the store to untouched, so the state
/// a second sign-out leaves equals the state the first left.
pub proof fn lemma_logout_idempotent(
    before: crate::connection::ServerConnection,
    once: crate::connection::ServerConnection,
    twice: crate::connection::ServerConnection,
)
    requires
        once.session is None,
        once.db == before.db,
        twice.session is None,
        twice.db == once.db,
    ensures
        twice.db == before.db,
        twice.session == once.session,
{
}

} // verus!
