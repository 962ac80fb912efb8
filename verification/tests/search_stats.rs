//! Join/search engine and statistics aggregator behavior.

use academic_core::connection::ServerConnection;
use academic_core::models::{Course, Department, StudentAccount, TeacherAccount, User};

fn user(id: i32, username: &str, email: &str, role: &str) -> User {
    User {
        id,
        username: username.to_string(),
        password: "Secret1!x".to_string(),
        email: email.to_string(),
        phone: String::new(),
        verified: false,
        suspended: false,
        forcenewpw: false,
        role: role.to_string(),
    }
}

fn course(id: i32, teacher_id: i32, name: &str) -> Course {
    Course {
        id,
        teacher_id,
        course: name.to_string(),
        course_nr: "CRS101".to_string(),
        description: "intro".to_string(),
        cr_cost: 3,
        timeslots: "mon 9-11".to_string(),
    }
}

fn teacher_account(id: i32, teacher_id: i32, dept_id: i32, dept: &str) -> TeacherAccount {
    TeacherAccount { id, teacher_id, dept_id, dept: dept.to_string() }
}

fn department(id: i32, dept_head: i32, name: &str) -> Department {
    Department { id, dept_head, name: name.to_string() }
}

/// Scenario: a department, a teacher account in it, a course owned by the
/// teacher, and the teacher's user row. The empty query returns the one
/// resolved card; a match-less query returns nothing; and with the
/// teacher account deleted the chain breaks and the card is silently
/// dropped, without error.
#[test]
fn course_card_scenario() {
    let mut conn = ServerConnection::new();
    conn.session = Some(user(9, "root", "root@aubg.edu", "admin"));
    conn.db.departments.push(department(1, 2, "Math"));
    conn.db.teacher_accounts.push(teacher_account(2, 2, 1, "Math"));
    conn.db.users.push(user(2, "turing", "turing@aubg.edu", "teacher"));
    conn.register_courses(vec![course(3, 2, "logic")]).unwrap();

    let cards = conn.search_courses("".to_string()).unwrap();
    assert_eq!(cards.len(), 1);
    let (c, t, d, u) = &cards[0];
    assert_eq!(c.id, 3);
    assert_eq!(t.id, 2);
    assert_eq!(d.id, 1);
    assert_eq!(u.id, 2);

    assert_eq!(conn.search_courses("nomatch".to_string()).unwrap().len(), 0);

    conn.db.teacher_accounts.clear();
    assert_eq!(conn.search_courses("".to_string()).unwrap().len(), 0);
}

/// Round trip: registering one course and searching for its name (or any
/// substring of a joined field) returns exactly one card whose course
/// component equals the registered record.
#[test]
fn course_round_trip() {
    let mut conn = ServerConnection::new();
    conn.db.departments.push(department(1, 2, "Math"));
    conn.db.teacher_accounts.push(teacher_account(2, 2, 1, "Math"));
    conn.db.users.push(user(2, "turing", "turing@aubg.edu", "teacher"));
    conn.session = Some(user(2, "turing", "turing@aubg.edu", "teacher"));
    let c = course(3, 2, "logic");
    conn.register_courses(vec![c.clone()]).unwrap();
    let cards = conn.search_courses("logic".to_string()).unwrap();
    assert_eq!(cards.len(), 1);
    assert_eq!(cards[0].0, c);
    // a substring of another joined field also finds the card
    let by_email = conn.search_courses("turing@".to_string()).unwrap();
    assert_eq!(by_email.len(), 1);
    assert_eq!(by_email[0].0, c);
    // the query is trimmed before matching
    let padded = conn.search_courses("  logic  ".to_string()).unwrap();
    assert_eq!(padded.len(), 1);
}

#[test]
fn query_is_lowercased_fields_are_not() {
    let mut conn = ServerConnection::new();
    conn.db.departments.push(department(1, 2, "Math"));
    conn.db.teacher_accounts.push(teacher_account(2, 2, 1, "Math"));
    conn.db.users.push(user(2, "turing", "turing@aubg.edu", "teacher"));
    conn.db.courses.push(course(3, 2, "Logic"));
    // the query folds to "logic", which the raw field "Logic" does not contain
    assert_eq!(conn.search_courses("Logic".to_string()).unwrap().len(), 0);
    // the raw field matches its own lowercase tail
    assert_eq!(conn.search_courses("ogic".to_string()).unwrap().len(), 1);
}

#[test]
fn search_matches_rendered_ids() {
    let mut conn = ServerConnection::new();
    conn.db.departments.push(department(41, 2, "Math"));
    conn.db.teacher_accounts.push(teacher_account(2, 2, 41, "Math"));
    conn.db.users.push(user(2, "turing", "turing@aubg.edu", "teacher"));
    conn.db.courses.push(course(3, 2, "logic"));
    // the department id 41 rendered in decimal is matched as text
    assert_eq!(conn.search_courses("41".to_string()).unwrap().len(), 1);
    assert_eq!(conn.search_courses("42".to_string()).unwrap().len(), 0);
}

#[test]
fn search_users_by_fields() {
    let mut conn = ServerConnection::new();
    conn.db.users.push(user(12, "ana", "ana@aubg.edu", "student"));
    conn.db.users.push(user(34, "bob", "bob@aubg.edu", "student"));
    let hits = conn.search_users("ana".to_string()).unwrap();
    assert_eq!(hits.len(), 1);
    assert_eq!(hits[0].id, 12);
    // ids are matched through their decimal rendering
    let by_id = conn.search_users("34".to_string()).unwrap();
    assert_eq!(by_id.len(), 1);
    assert_eq!(by_id[0].username, "bob");
    // the user search does not fold case
    assert_eq!(conn.search_users("ANA".to_string()).unwrap().len(), 0);
}

#[test]
fn statistics_counts() {
    let mut conn = ServerConnection::new();
    conn.db.users.push(user(1, "a", "a@aubg.edu", "admin"));
    conn.db.users.push(user(2, "t", "t@aubg.edu", "teacher"));
    conn.db.users.push(user(3, "s1", "s1@aubg.edu", "student"));
    conn.db.users.push(user(4, "s2", "s2@aubg.edu", "student"));
    conn.db.users[1].suspended = true;  // a suspended non-student
    conn.db.student_accounts.push(StudentAccount {
        id: 3,
        student_id: 3,
        advisor_id: 2,
        discipline: "math".to_string(),
        enrollment: "fall".to_string(),
        cgpa: 350,
        can_grad: true,
        cur_credit: 12,
        cum_credit: 130,
    });
    conn.db.courses.push(course(7, 2, "logic"));
    conn.db.departments.push(department(1, 2, "Math"));
    let st = conn.generate_statistics().unwrap();
    assert_eq!(st.registered_users, 4);
    assert_eq!(st.suspended_users, 1);
    assert_eq!(st.faculty_members, 1);
    // the active-student count subtracts every suspended user, of any role
    assert_eq!(st.active_students, 1);
    assert_eq!(st.graduated_students, 1);
    assert_eq!(st.courses, 1);
    assert_eq!(st.departments, 1);
}
