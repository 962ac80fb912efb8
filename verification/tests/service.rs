//! Session, registration, authorization and mutation behavior.

use academic_core::connection::{ErrorClass, ServerConnection, ServerError};
use academic_core::filters::{DepartmentsFilter, Filter, UsersFilter};
use academic_core::models::{
    Course, Department, ReceiverType, StudentAccount, Table, TeacherAccount, User,
};

fn user(id: i32, username: &str, email: &str, role: &str) -> User {
    User {
        id,
        username: username.to_string(),
        password: "Secret1!x".to_string(),
        email: email.to_string(),
        phone: String::new(),
        verified: false,
        suspended: false,
        forcenewpw: false,
        role: role.to_string(),
    }
}

fn course(id: i32, teacher_id: i32, name: &str) -> Course {
    Course {
        id,
        teacher_id,
        course: name.to_string(),
        course_nr: "CRS101".to_string(),
        description: "intro".to_string(),
        cr_cost: 3,
        timeslots: "mon 9-11".to_string(),
    }
}

#[test]
fn register_and_login_round_trip() {
    let mut conn = ServerConnection::new();
    let mut u = user(1, "ana", "ana@aubg.edu", "student");
    u.password = "Passw0rd!".to_string();
    conn.register_user(u).unwrap();
    // the stored credential is a hash, not the plaintext
    let stored = conn.get_users().unwrap();
    assert_eq!(stored.len(), 1);
    assert_ne!(stored[0].password, "Passw0rd!");
    // wrong password is rejected, right one signs in
    let denied = conn.login("ana@aubg.edu".to_string(), "NotIt9!aa".to_string());
    assert_eq!(denied.unwrap_err(), ServerError::InvalidCredentials);
    conn.login("ana@aubg.edu".to_string(), "Passw0rd!".to_string()).unwrap();
    assert!(conn.session.is_some());
}

#[test]
fn duplicate_email_leaves_one_row() {
    let mut conn = ServerConnection::new();
    conn.register_user(user(1, "ana", "ana@aubg.edu", "student")).unwrap();
    let again = conn.register_user(user(2, "other", "ana@aubg.edu", "student"));
    assert_eq!(again.unwrap_err(), ServerError::EmailTaken);
    assert_eq!(conn.get_users().unwrap().len(), 1);
}

#[test]
fn duplicate_email_case_insensitive() {
    let mut conn = ServerConnection::new();
    conn.register_user(user(1, "ana", "ana@aubg.edu", "student")).unwrap();
    // an uppercase variant is stopped by the email pattern itself, which
    // admits only lowercase local parts
    let again = conn.register_user(user(2, "other", "Ana@aubg.edu", "student"));
    assert_eq!(again.unwrap_err(), ServerError::InvalidEmail);
    assert_eq!(conn.get_users().unwrap().len(), 1);
}

#[test]
fn password_rules_each_rejected() {
    let mut conn = ServerConnection::new();
    for (i, pw) in [
        "Ab1!xyz",     // 7 characters
        "abcd1!efg",   // no uppercase
        "ABCD1!EFG",   // no lowercase
        "Abcdef!ghi",  // no digit
        "Abcdef1ghi",  // no special character
    ]
    .iter()
    .enumerate()
    {
        let email = format!("ana{}@aubg.edu", i);
        let mut u = user(10 + i as i32, "ana", &email, "student");
        u.password = pw.to_string();
        let r = conn.register_user(u);
        assert_eq!(r.unwrap_err(), ServerError::WeakPassword);
    }
    assert_eq!(conn.get_users().unwrap().len(), 0);
    let mut ok = user(1, "ana", "ana@aubg.edu", "student");
    ok.password = "Abcdef1!".to_string();
    conn.register_user(ok).unwrap();
}

#[test]
fn register_validation_order_and_errors() {
    let mut conn = ServerConnection::new();
    let mut u = user(1, "", "bad", "student");
    u.password = "weak".to_string();
    // empty username fires before the malformed email
    assert_eq!(conn.register_user(u).unwrap_err(), ServerError::EmptyUsername);
    let u2 = user(1, "ana", "ana@elsewhere.edu", "student");
    assert_eq!(conn.register_user(u2).unwrap_err(), ServerError::InvalidEmail);
    let mut u3 = user(1, "ana", "ana@aubg.edu", "student");
    u3.phone = "not-a-phone".to_string();
    assert_eq!(conn.register_user(u3).unwrap_err(), ServerError::InvalidPhone);
    let mut u4 = user(1, "ana", "ana@aubg.edu", "student");
    u4.phone = "+35-8888-0000".to_string();
    conn.register_user(u4).unwrap();
    // a signed-in session may not register
    conn.session = Some(user(9, "admin", "root@aubg.edu", "admin"));
    let e = conn.register_user(user(2, "bob", "bob@aubg.edu", "student")).unwrap_err();
    assert_eq!(e, ServerError::MustBeSignedOut);
    assert_eq!(e.class(), ErrorClass::Authentication);
}

#[test]
fn login_failures_leave_session_anonymous() {
    let mut conn = ServerConnection::new();
    conn.register_user(user(1, "ana", "ana@aubg.edu", "student")).unwrap();
    // an unknown email and a wrong password are indistinguishable
    let unknown = conn.login("ghost@aubg.edu".to_string(), "Whatever1!".to_string()).unwrap_err();
    let wrong = conn.login("ana@aubg.edu".to_string(), "Whatever1!".to_string()).unwrap_err();
    assert_eq!(unknown, ServerError::InvalidCredentials);
    assert_eq!(unknown, wrong);
    assert!(conn.session.is_none());
    // suspend the stored row directly, then login is refused as suspended
    conn.db.users[0].suspended = true;
    let r = conn.login("ana@aubg.edu".to_string(), "Secret1!x".to_string());
    assert_eq!(r.unwrap_err(), ServerError::SuspendedUser);
    assert!(conn.session.is_none());
}

#[test]
fn logout_twice_never_errors() {
    let mut conn = ServerConnection::new();
    conn.register_user(user(1, "ana", "ana@aubg.edu", "student")).unwrap();
    conn.login("ana@aubg.edu".to_string(), "Secret1!x".to_string()).unwrap();
    conn.logout();
    assert!(conn.session.is_none());
    conn.logout();
    assert!(conn.session.is_none());
}

#[test]
fn teacher_course_batch_all_or_nothing() {
    let mut conn = ServerConnection::new();
    conn.session = Some(user(2, "t", "t@aubg.edu", "teacher"));
    conn.register_courses(vec![course(1, 2, "algebra"), course(2, 2, "analysis")]).unwrap();
    assert_eq!(conn.db.courses.len(), 2);
    // a batch holding a course of someone else is rejected whole
    let r = conn.remove_courses(vec![course(1, 2, "algebra"), course(9, 7, "stolen")]);
    assert_eq!(r.unwrap_err(), ServerError::NotOwner);
    assert_eq!(conn.db.courses.len(), 2);
    assert_eq!(conn.db.courses[0].course, "algebra");
    let r = conn.update_courses(vec![course(1, 7, "hijack")]);
    assert_eq!(r.unwrap_err(), ServerError::NotOwner);
    assert_eq!(conn.db.courses[0].course, "algebra");
    // owned batches go through
    conn.remove_courses(vec![course(1, 2, "algebra")]).unwrap();
    assert_eq!(conn.db.courses.len(), 1);
    assert_eq!(conn.db.courses[0].course, "analysis");
}

#[test]
fn course_registration_permission_matrix() {
    let mut conn = ServerConnection::new();
    let r = conn.register_courses(vec![course(1, 2, "algebra")]);
    assert_eq!(r.unwrap_err(), ServerError::MustBeSignedIn);
    conn.session = Some(user(5, "s", "s@aubg.edu", "student"));
    let e = conn.register_courses(vec![course(1, 2, "algebra")]).unwrap_err();
    assert_eq!(e, ServerError::NotPermitted);
    assert_eq!(e.class(), ErrorClass::Authorization);
    // an administrator registers on anyone's behalf; roles compare
    // case-insensitively
    conn.session = Some(user(9, "a", "a@aubg.edu", "ADMIN"));
    conn.register_courses(vec![course(1, 2, "algebra")]).unwrap();
    assert_eq!(conn.db.courses.len(), 1);
}

#[test]
fn enroll_and_drop_as_student() {
    let mut conn = ServerConnection::new();
    conn.session = Some(user(5, "s", "s@aubg.edu", "student"));
    conn.enroll_courses_at(vec![course(3, 2, "algebra")], 9).unwrap();
    assert_eq!(conn.db.student_courses.len(), 1);
    let e = &conn.db.student_courses[0];
    assert_eq!(e.student_id, 5);
    assert_eq!(e.course_id, 3);
    assert_eq!(e.grade, -1);
    assert_eq!(e.semester, "Fall");
    // dropping removes by the enrollment key whatever the current month
    conn.drop_courses(vec![course(3, 2, "algebra")]).unwrap();
    assert_eq!(conn.db.student_courses.len(), 0);
    // a teacher may not enroll
    conn.session = Some(user(2, "t", "t@aubg.edu", "teacher"));
    let r = conn.enroll_courses(vec![course(3, 2, "algebra")]);
    assert_eq!(r.unwrap_err(), ServerError::NotPermitted);
}

#[test]
fn enrollment_semester_boundaries() {
    let mut conn = ServerConnection::new();
    conn.session = Some(user(5, "s", "s@aubg.edu", "student"));
    for (month, semester) in [(1, "Spring"), (5, "Spring"), (6, "Fall"), (12, "Fall")] {
        conn.enroll_courses_at(vec![course(month, 2, "x")], month as u32).unwrap();
        assert_eq!(conn.db.student_courses.last().unwrap().semester, semester);
    }
    // the clock-driven path lands in one of the two semesters with the sentinel grade
    conn.enroll_courses(vec![course(99, 2, "y")]).unwrap();
    let e = conn.db.student_courses.last().unwrap();
    assert!(e.semester == "Fall" || e.semester == "Spring");
    assert_eq!(e.grade, -1);
}

#[test]
fn suspend_unsuspend_idempotent() {
    let mut conn = ServerConnection::new();
    conn.db.users.push(user(5, "s", "s@aubg.edu", "student"));
    conn.session = Some(user(9, "a", "a@aubg.edu", "admin"));
    conn.suspend_user(user(5, "s", "s@aubg.edu", "student")).unwrap();
    assert!(conn.db.users[0].suspended);
    // suspending again succeeds and the flag stays set
    conn.suspend_user(user(5, "s", "s@aubg.edu", "student")).unwrap();
    assert!(conn.db.users[0].suspended);
    conn.unsuspend_user(user(5, "s", "s@aubg.edu", "student")).unwrap();
    assert!(!conn.db.users[0].suspended);
    // not an administrator: denied
    conn.session = Some(user(5, "s", "s@aubg.edu", "student"));
    let r = conn.suspend_user(user(5, "s", "s@aubg.edu", "student"));
    assert_eq!(r.unwrap_err(), ServerError::NotPermitted);
}

#[test]
fn set_user_role_swaps_satellites() {
    let mut conn = ServerConnection::new();
    conn.db.users.push(user(5, "s", "s@aubg.edu", "student"));
    conn.db.student_accounts.push(StudentAccount {
        id: 5,
        student_id: 5,
        advisor_id: 0,
        discipline: "math".to_string(),
        enrollment: "fall".to_string(),
        cgpa: 250,
        can_grad: false,
        cur_credit: 12,
        cum_credit: 60,
    });
    conn.session = Some(user(9, "a", "a@aubg.edu", "admin"));
    conn.set_user_role(user(5, "s", "s@aubg.edu", "student"), "teacher").unwrap();
    assert_eq!(conn.db.users[0].role, "teacher");
    assert_eq!(conn.db.student_accounts.len(), 0);
    assert_eq!(conn.db.teacher_accounts.len(), 1);
    assert_eq!(conn.db.teacher_accounts[0].teacher_id, 5);
    let r = conn.set_user_role(user(5, "s", "s@aubg.edu", "teacher"), "janitor");
    assert_eq!(r.unwrap_err(), ServerError::InvalidRole);
}

#[test]
fn delete_user_rules() {
    let mut conn = ServerConnection::new();
    conn.db.users.push(user(9, "a", "a@aubg.edu", "admin"));
    conn.db.users.push(user(5, "s", "s@aubg.edu", "student"));
    conn.session = Some(user(9, "a", "a@aubg.edu", "admin"));
    // an administrator may not delete their own account
    let r = conn.delete_user(user(9, "a", "a@aubg.edu", "admin"));
    assert_eq!(r.unwrap_err(), ServerError::CannotDeleteSelf);
    conn.delete_user(user(5, "s", "s@aubg.edu", "student")).unwrap();
    assert_eq!(conn.db.users.len(), 1);
    // a student may delete only themselves
    conn.db.users.push(user(5, "s", "s@aubg.edu", "student"));
    conn.session = Some(user(5, "s", "s@aubg.edu", "student"));
    let r = conn.delete_user(user(9, "a", "a@aubg.edu", "admin"));
    assert_eq!(r.unwrap_err(), ServerError::NotPermitted);
    conn.delete_user(user(5, "s", "s@aubg.edu", "student")).unwrap();
    assert_eq!(conn.db.users.len(), 1);
    assert_eq!(conn.db.users[0].id, 9);
}

#[test]
fn update_user_immutable_fields_for_student() {
    let mut conn = ServerConnection::new();
    conn.db.users.push(user(5, "s", "s@aubg.edu", "student"));
    conn.session = Some(user(5, "s", "s@aubg.edu", "student"));
    let mut patched = user(5, "other-name", "s@aubg.edu", "student");
    let r = conn.update_user(patched.clone());
    assert_eq!(r.unwrap_err(), ServerError::ImmutableUsername);
    patched.username = "s".to_string();
    patched.role = "admin".to_string();
    assert_eq!(conn.update_user(patched.clone()).unwrap_err(), ServerError::ImmutableRole);
    patched.role = "student".to_string();
    patched.phone = "+35-8888-0000".to_string();
    conn.update_user(patched).unwrap();
    assert_eq!(conn.db.users[0].phone, "+35-8888-0000");
    // a student may not touch someone else's row
    let r = conn.update_user(user(6, "x", "x@aubg.edu", "student"));
    assert_eq!(r.unwrap_err(), ServerError::NotPermitted);
    // an administrator may rewrite any existing row
    conn.session = Some(user(9, "a", "a@aubg.edu", "admin"));
    let mut rewrite = user(5, "renamed", "s@aubg.edu", "student");
    rewrite.suspended = true;
    conn.update_user(rewrite).unwrap();
    assert_eq!(conn.db.users[0].username, "renamed");
    assert!(conn.db.users[0].suspended);
    let r = conn.update_user(user(77, "ghost", "g@aubg.edu", "student"));
    assert_eq!(r.unwrap_err(), ServerError::UserNotFound);
}

#[test]
fn get_user_lookup_and_invariant() {
    let mut conn = ServerConnection::new();
    assert_eq!(conn.get_user(5).unwrap_err(), ServerError::UserNotFound);
    conn.db.users.push(user(5, "s", "s@aubg.edu", "student"));
    assert_eq!(conn.get_user(5).unwrap().username, "s");
    // a duplicated id is a storage-invariant violation, reported loudly
    conn.db.users.push(user(5, "dup", "d@aubg.edu", "student"));
    let e = conn.get_user(5).unwrap_err();
    assert_eq!(e, ServerError::StorageInvariant);
    assert_eq!(e.class(), ErrorClass::StorageInvariantViolation);
}

#[test]
fn driver_insert_and_find_through_envelope() {
    let mut conn = ServerConnection::new();
    conn.db
        .insert(vec![
            ReceiverType::Department(Department {
                id: 1,
                dept_head: 2,
                name: "Math".to_string(),
            }),
            ReceiverType::TeacherAccount(TeacherAccount {
                id: 2,
                teacher_id: 2,
                dept_id: 1,
                dept: "Math".to_string(),
            }),
        ])
        .unwrap();
    assert_eq!(conn.db.departments.len(), 1);
    assert_eq!(conn.db.teacher_accounts.len(), 1);
    let rows = conn
        .find(Table::Departments, vec![Filter::Departments(DepartmentsFilter::Id(1))], None)
        .unwrap();
    assert_eq!(rows.len(), 1);
    match &rows[0] {
        ReceiverType::Department(d) => assert_eq!(d.name, "Math"),
        _ => panic!("wrong entity kind"),
    }
    // an empty filter list returns the whole table
    let all = conn.find(Table::Departments, vec![], None).unwrap();
    assert_eq!(all.len(), 1);
    // a filter aimed at another table selects nothing under the default
    // combinator
    let none = conn
        .find(
            Table::Departments,
            vec![Filter::Users(UsersFilter::All)],
            None,
        )
        .unwrap();
    assert_eq!(none.len(), 0);
}
