//! Request shaping: the pure merge and construction rules the transport
//! layer applies before calling the session service. An empty string
//! means "keep the stored value"; a false flag likewise keeps the stored
//! flag, so a patch can only raise a flag, never clear it.

use vstd::prelude::*;
use vstd::string::StrSliceExecFns;
use vstd::string::StringExecFns;
use crate::connection::ServerError;
use crate::models::Course;
use crate::models::User;
use crate::strings::str_eq;

verus! {

/// Merges an administrator patch over a stored user: each empty string
/// field and each false flag keeps the stored value; the id always stays.
pub fn apply_user_patch(
    current: User,
    username: String,
    password: String,
    email: String,
    phone: String,
    verified: bool,
    suspended: bool,
    forcenewpw: bool,
    role: String,
) -> (r: User)
    ensures
        r@.id == current@.id,
        r@.username == if username@.len() == 0 {
            current@.username
        } else {
            username@
        },
        r@.password == if password@.len() == 0 {
            current@.password
        } else {
            password@
        },
        r@.email == if email@.len() == 0 {
            current@.email
        } else {
            email@
        },
        r@.phone == if phone@.len() == 0 {
            current@.phone
        } else {
            phone@
        },
        r@.verified == (verified || current@.verified),
        r@.suspended == (suspended || current@.suspended),
        r@.forcenewpw == (forcenewpw || current@.forcenewpw),
        r@.role == if role@.len() == 0 {
            current@.role
        } else {
            role@
        },
{
    User {
        id: current.id,
        username: if username.as_str().unicode_len() == 0 {
            current.username
        } else {
            username
        },
        password: if password.as_str().unicode_len() == 0 {
            current.password
        } else {
            password
        },
        email: if email.as_str().unicode_len() == 0 {
            current.email
        } else {
            email
        },
        phone: if phone.as_str().unicode_len() == 0 {
            current.phone
        } else {
            phone
        },
        verified: verified || current.verified,
        suspended: suspended || current.suspended,
        forcenewpw: forcenewpw || current.forcenewpw,
        role: if role.as_str().unicode_len() == 0 {
            current.role
        } else {
            role
        },
    }
}

/// Merges a self-service patch over the stored account: each empty
/// string keeps the stored value; id and the three flags always stay.
pub fn apply_self_patch(
    current: User,
    username: String,
    email: String,
    password: String,
    phone: String,
    role: String,
) -> (r: User)
    ensures
        r@.id == current@.id,
        r@.username == if username@.len() == 0 {
            current@.username
        } else {
            username@
        },
        r@.email == if email@.len() == 0 {
            current@.email
        } else {
            email@
        },
        r@.password == if password@.len() == 0 {
            current@.password
        } else {
            password@
        },
        r@.phone == if phone@.len() == 0 {
            current@.phone
        } else {
            phone@
        },
        r@.role == if role@.len() == 0 {
            current@.role
        } else {
            role@
        },
        r@.verified == current@.verified,
        r@.suspended == current@.suspended,
        r@.forcenewpw == current@.forcenewpw,
{
    User {
        id: current.id,
        username: if username.as_str().unicode_len() == 0 {
            current.username
        } else {
            username
        },
        password: if password.as_str().unicode_len() == 0 {
            current.password
        } else {
            password
        },
        email: if email.as_str().unicode_len() == 0 {
            current.email
        } else {
            email
        },
        phone: if phone.as_str().unicode_len() == 0 {
            current.phone
        } else {
            phone
        },
        verified: current.verified,
        suspended: current.suspended,
        forcenewpw: current.forcenewpw,
        role: if role.as_str().unicode_len() == 0 {
            current.role
        } else {
            role
        },
    }
}

/// Builds the user record a registration request creates: unverified,
/// not suspended, no forced password change, the given role.
pub fn registration_user(
    username: String,
    password: String,
    email: String,
    phone: String,
    role: String,
) -> (r: User)
    ensures
        r@.id == 0,
        r@.username == username@,
        r@.password == password@,
        r@.email == email@,
        r@.phone == phone@,
        r@.verified == false,
        r@.suspended == false,
        r@.forcenewpw == false,
        r@.role == role@,
{
    User {
        id: 0,
        username,
        password,
        email,
        phone,
        verified: false,
        suspended: false,
        forcenewpw: false,
        role,
    }
}

/// Builds the course record a creation request describes. The storage id
/// starts at zero; a missing description reads `No description.`; a
/// request without a resolvable teacher id is rejected, as is a credit
/// cost that is not positive.
pub fn new_course_record(
    name: String,
    description: Option<String>,
    course_nr: String,
    teacher_id: i32,
    cr_cost: i32,
    timeslots: String,
) -> (r: Result<Course, ServerError>)
    ensures
        match r {
            Ok(c) => teacher_id != 0 && cr_cost > 0 && c@.id == 0 && c@.teacher_id == teacher_id
                && c@.course == name@ && c@.course_nr == course_nr@ && c@.cr_cost == cr_cost
                && c@.timeslots == timeslots@ && c@.description == (match description {
                Some(d) => d@,
                None => "No description."@,
            }),
            Err(ServerError::UserNotFound) => teacher_id == 0,
            Err(ServerError::InvalidCourseCost) => teacher_id != 0 && cr_cost <= 0,
            Err(_) => false,
        },
{
    if teacher_id == 0 {
        return Err(ServerError::UserNotFound);
    }
    if cr_cost <= 0 {
        return Err(ServerError::InvalidCourseCost);
    }
    let desc = match description {
        Some(d) => d,
        None => String::from_str("No description."),
    };
    Ok(
        Course {
            id: 0,
            teacher_id,
            course: name,
            course_nr,
            description: desc,
            cr_cost,
            timeslots,
        },
    )
}

/// Rewrites the patchable fields of a course from an update request,
/// keeping its id and owner; a missing description reads
/// `No description.`.
pub fn apply_course_patch(
    current: Course,
    name: String,
    description: Option<String>,
    course_nr: String,
    cr_cost: i32,
    timeslots: String,
) -> (r: Course)
    ensures
        r@.id == current@.id,
        r@.teacher_id == current@.teacher_id,
        r@.course == name@,
        r@.course_nr == course_nr@,
        r@.cr_cost == cr_cost,
        r@.timeslots == timeslots@,
        r@.description == (match description {
            Some(d) => d@,
            None => "No description."@,
        }),
{
    let desc = match description {
        Some(d) => d,
        None => String::from_str("No description."),
    };
    Course {
        id: current.id,
        teacher_id: current.teacher_id,
        course: name,
        course_nr,
        description: desc,
        cr_cost,
        timeslots,
    }
}

/// Decides whether a self-service deletion request is authorized: the
/// target row must carry the requester's id and stored credential.
pub fn self_credentials_match(user: &User, id: i32, password: &str) -> (r: bool)
    ensures
        r == (user@.id == id && user@.password == password@),
{
    user.id == id && str_eq(user.password.as_str(), password)
}

} // verus!
