//! String utilities, validation patterns, request shaping and SQL intent.

use academic_core::models::{Action, Course, Department, StudentCourse, Table, TeacherAccount, User};
use academic_core::patches::{
    apply_course_patch, apply_self_patch, apply_user_patch, new_course_record, registration_user,
    self_credentials_match,
};
use academic_core::connection::ServerError;
use academic_core::sql::{Join, ToSQL};
use academic_core::password::{generate_salt, hash, verify};
use academic_core::strings::{contains_sub, i32_to_string, str_eq, to_lower, trim};
use academic_core::validate::{check_email, check_password, check_phone};

#[test]
fn string_utilities() {
    assert!(str_eq("abc", "abc"));
    assert!(!str_eq("abc", "abd"));
    assert_eq!(to_lower("MiXeD 123 !"), "mixed 123 !");
    assert_eq!(trim("  padded\t"), "padded");
    assert_eq!(trim("   "), "");
    assert!(contains_sub("hello world", "lo wo"));
    assert!(contains_sub("hello", ""));
    assert!(!contains_sub("hello", "world"));
    assert!(!contains_sub("ab", "abc"));
    assert_eq!(i32_to_string(0), "0");
    assert_eq!(i32_to_string(12034), "12034");
    assert_eq!(i32_to_string(-507), "-507");
    assert_eq!(i32_to_string(i32::MIN), "-2147483648");
}

#[test]
fn email_pattern() {
    assert!(check_email("ana@aubg.edu"));
    assert!(check_email("a@aubg.edu"));
    assert!(check_email("a.b_c+9@aubg.edu"));
    assert!(!check_email("ana@gmail.com"));
    assert!(!check_email("Ana@aubg.edu"));
    assert!(!check_email(".ana@aubg.edu"));
    assert!(!check_email("ana.@aubg.edu"));
    assert!(!check_email("@aubg.edu"));
    assert!(!check_email("an a@aubg.edu"));
}

#[test]
fn phone_pattern() {
    assert!(check_phone("3588880000"));
    assert!(check_phone("+3588880000"));
    assert!(check_phone("35-8888-0000"));
    assert!(check_phone("35.8888 0000"));
    assert!(!check_phone(""));
    assert!(!check_phone("123"));
    assert!(!check_phone("35-8888-00000"));
    assert!(!check_phone("ab-8888-0000"));
}

#[test]
fn password_pattern() {
    assert!(check_password("Abcdef1!"));
    assert!(check_password("xY3?zzzzzz"));
    assert!(!check_password("Abcde1!"));
    assert!(!check_password("abcdefg1!"));
    assert!(!check_password("ABCDEFG1!"));
    assert!(!check_password("Abcdefgh!"));
    assert!(!check_password("Abcdefg12"));
}

#[test]
fn request_shaping() {
    let current = User {
        id: 7,
        username: "ana".to_string(),
        password: "hash".to_string(),
        email: "ana@aubg.edu".to_string(),
        phone: "3588880000".to_string(),
        verified: true,
        suspended: false,
        forcenewpw: false,
        role: "student".to_string(),
    };
    let patched = apply_user_patch(
        current.clone(),
        String::new(),
        "newhash".to_string(),
        String::new(),
        String::new(),
        false,
        true,
        false,
        String::new(),
    );
    assert_eq!(patched.id, 7);
    assert_eq!(patched.username, "ana");
    assert_eq!(patched.password, "newhash");
    assert!(patched.verified);  // a false flag keeps the stored value
    assert!(patched.suspended);
    assert_eq!(patched.role, "student");

    let selfed = apply_self_patch(
        current.clone(),
        "ana2".to_string(),
        String::new(),
        String::new(),
        String::new(),
        String::new(),
    );
    assert_eq!(selfed.username, "ana2");
    assert_eq!(selfed.email, "ana@aubg.edu");
    assert!(selfed.verified);

    let reg = registration_user(
        "bob".to_string(),
        "Abcdef1!".to_string(),
        "bob@aubg.edu".to_string(),
        String::new(),
        "student".to_string(),
    );
    assert_eq!(reg.id, 0);
    assert!(!reg.verified && !reg.suspended && !reg.forcenewpw);

    let made = new_course_record(
        "logic".to_string(),
        None,
        "CRS101".to_string(),
        2,
        3,
        "mon 9-11".to_string(),
    )
    .unwrap();
    assert_eq!(made.description, "No description.");
    assert_eq!(made.id, 0);
    let bad_teacher =
        new_course_record("x".to_string(), None, "n".to_string(), 0, 3, "t".to_string());
    assert_eq!(bad_teacher.unwrap_err(), ServerError::UserNotFound);
    let bad_cost =
        new_course_record("x".to_string(), None, "n".to_string(), 2, 0, "t".to_string());
    assert_eq!(bad_cost.unwrap_err(), ServerError::InvalidCourseCost);

    let repatched = apply_course_patch(
        made,
        "logic 2".to_string(),
        Some("deep".to_string()),
        "CRS201".to_string(),
        4,
        "tue 9-11".to_string(),
    );
    assert_eq!(repatched.course, "logic 2");
    assert_eq!(repatched.description, "deep");
    assert_eq!(repatched.teacher_id, 2);

    assert!(self_credentials_match(&current, 7, "hash"));
    assert!(!self_credentials_match(&current, 7, "wrong"));
    assert!(!self_credentials_match(&current, 8, "hash"));
}

#[test]
fn sql_intent_strings() {
    let d = Department { id: 4, dept_head: 2, name: "Math".to_string() };
    assert_eq!(
        d.to_sql(Action::Insert),
        "INSERT INTO departments (dept_head, name) VALUES (2, 'Math')"
    );
    assert_eq!(
        d.to_sql(Action::Update),
        "UPDATE departments SET dept_head = 2, name = 'Math' WHERE id = 4"
    );
    assert_eq!(d.to_sql(Action::Delete), "DELETE FROM departments WHERE id = 4");

    let t = TeacherAccount { id: 2, teacher_id: 2, dept_id: 4, dept: "Math".to_string() };
    assert_eq!(
        t.to_sql(Action::Insert),
        "INSERT INTO TEACHER_ACCOUNTS (teacher_id, dept_id, dept) VALUES (2, 4, 'Math')"
    );

    let e = StudentCourse {
        student_id: 5,
        course_id: 3,
        grade: -1,
        semester: "Fall".to_string(),
    };
    assert_eq!(
        e.to_sql(Action::Insert),
        "INSERT INTO student_courses (student_id, course_id, grade, semester) VALUES (5, 3, -1, 'Fall')"
    );
    assert_eq!(
        e.to_sql(Action::Delete),
        "DELETE FROM student_courses WHERE student_id = 5 AND course_id = 3"
    );

    let c = Course {
        id: 3,
        teacher_id: 2,
        course: "logic".to_string(),
        course_nr: "CRS101".to_string(),
        description: "intro".to_string(),
        cr_cost: 3,
        timeslots: "mon".to_string(),
    };
    assert_eq!(
        c.to_sql(Action::Insert),
        "INSERT INTO COURSES (teacher_id, course, course_nr, description, cr_cost, timeslots) VALUES (2, 'logic', 'CRS101', 'intro', 3, 'mon')"
    );

    let u = User {
        id: 7,
        username: "ana".to_string(),
        password: "h".to_string(),
        email: "ana@aubg.edu".to_string(),
        phone: "".to_string(),
        verified: true,
        suspended: false,
        forcenewpw: false,
        role: "student".to_string(),
    };
    assert_eq!(
        u.to_sql(Action::Insert),
        "INSERT INTO USERS (username, password, email, phone, verified, suspended, forcenewpw, role) VALUES ('ana', 'h', 'ana@aubg.edu', '', true, false, false, 'student')"
    );
    assert_eq!(u.to_sql(Action::Delete), "DELETE FROM USERS WHERE id = 7");
}

#[test]
fn error_messages_and_classes() {
    assert_eq!(ServerError::MustBeSignedIn.message(), "Must be signed in.");
    assert_eq!(
        ServerError::NotOwner.message(),
        "Some courses do not belong to you. No action was taken."
    );
    assert_eq!(ServerError::UserNotFound.message(), "User not found.");
}

#[test]
fn table_names_and_joins() {
    assert_eq!(Table::Users.name(), "USERS");
    assert_eq!(Table::StudentCourses.name(), "STUDENT_COURSES");
    assert_eq!(
        Table::Users.join(&Table::Courses, Join::Inner),
        "USERS INNER JOIN COURSES"
    );
    assert_eq!(
        Table::TeacherAccount.join(&Table::Departments, Join::Left),
        "TEACHER_ACCOUNTS LEFT JOIN DEPARTMENTS"
    );
}

#[test]
fn credential_hashing_round_trip() {
    let salt = generate_salt();
    let hashed = hash("Abcdef1!", &salt).unwrap();
    // the hash is a PHC string, not the password handed back unchanged
    assert_ne!(hashed, "Abcdef1!");
    assert!(hashed.starts_with("$argon2"));
    assert!(verify(&hashed, "Abcdef1!"));
    assert!(!verify(&hashed, "Abcdef2!"));
    // an unparsable hash string verifies nothing
    assert!(!verify("not-a-hash", "Abcdef1!"));
    // the hash is a function of password and salt alone
    assert_eq!(hashed, hash("Abcdef1!", &salt).unwrap());
}
