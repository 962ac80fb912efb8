//! Session/authorization service: the connection owns the storage driver
//! and at most one authenticated identity. Registration and login manage
//! the session; every mutating operation elsewhere consults the identity's
//! role against the fixed permission matrix.

use vstd::prelude::*;
use vstd::string::StrSliceExecFns;
use vstd::string::StringExecFns;
use crate::db_driver::DbDriver;
use crate::db_driver::DbError;
use crate::db_driver::found_rows;
use crate::db_driver::insert_one;
use crate::db_driver::lemma_apply_singleton;
use crate::db_driver::selected_users;
use crate::filters::Associativity;
use crate::filters::Filter;
use crate::filters::UsersFilter;
use crate::models::Action;
use crate::models::EntityView;
use crate::models::ReceiverType;
use crate::models::Role;
use crate::models::Table;
use crate::models::User;
use crate::models::UserView;
use crate::models::role_of;
use crate::password::credential_matches;
use crate::password::generate_salt;
use crate::password::hash;
use crate::password::hash_of;
use crate::password::is_salt;
use crate::password::verify;
use crate::queries::filtered_users;
use crate::queries::lemma_filtered_all;
use crate::queries::lemma_filtered_email;
use crate::queries::lemma_filtered_id;
use crate::queries::lemma_selected_wrap;
use crate::queries::users_with_email;
use crate::queries::users_with_id;
use crate::strings::lower_seq;
use crate::strings::to_lower;
use crate::validate::check_email;
use crate::validate::check_password;
use crate::validate::check_phone;
use crate::validate::valid_email;
use crate::validate::valid_password;
use crate::validate::valid_phone;

verus! {

/// The error taxonomy class of a failure.
#[derive(Clone, Copy, PartialEq, Eq, Structural, Debug)]
pub enum ErrorClass {
    Validation,
    Authentication,
    Authorization,
    NotFound,
    StorageInvariantViolation,
    Storage,
}

/// Every failure an operation of the session service can surface.
#[derive(Clone, Copy, PartialEq, Eq, Structural, Debug)]
pub enum ServerError {
    /// Registration is only permitted while anonymous.
    MustBeSignedOut,
    /// The operation requires an authenticated session.
    MustBeSignedIn,
    /// The account name is empty.
    EmptyUsername,
    /// The email does not match the institutional pattern.
    InvalidEmail,
    /// The phone is non-empty and does not match the phone pattern.
    InvalidPhone,
    /// The password misses one of the strength rules.
    WeakPassword,
    /// A user with this email already exists.
    EmailTaken,
    /// The role string names none of the known roles.
    InvalidRole,
    /// A course's credit cost must be positive.
    InvalidCourseCost,
    /// A lookup found no matching user.
    UserNotFound,
    /// The account is suspended and may not sign in.
    SuspendedUser,
    /// The password does not verify against the stored credential.
    InvalidCredentials,
    /// The session's role lacks permission for the operation.
    NotPermitted,
    /// A batch holds an item the session does not own.
    NotOwner,
    /// An administrator may not delete the account they are signed in as.
    CannotDeleteSelf,
    /// The username may not be changed by this session.
    ImmutableUsername,
    /// The suspension flag may not be changed by this session.
    ImmutableSuspended,
    /// The verification flag may not be changed by this session.
    ImmutableVerified,
    /// The role may not be changed by this session.
    ImmutableRole,
    /// A uniqueness-bearing lookup returned more than one row.
    StorageInvariant,
    /// The backing store failed.
    Storage,
}

/// The taxonomy class of each failure.
pub open spec fn class_of(e: ServerError) -> ErrorClass {
    match e {
        ServerError::EmptyUsername => ErrorClass::Validation,
        ServerError::InvalidEmail => ErrorClass::Validation,
        ServerError::InvalidPhone => ErrorClass::Validation,
        ServerError::WeakPassword => ErrorClass::Validation,
        ServerError::EmailTaken => ErrorClass::Validation,
        ServerError::InvalidRole => ErrorClass::Validation,
        ServerError::InvalidCourseCost => ErrorClass::Validation,
        ServerError::MustBeSignedOut => ErrorClass::Authentication,
        ServerError::MustBeSignedIn => ErrorClass::Authentication,
        ServerError::UserNotFound => ErrorClass::NotFound,
        ServerError::SuspendedUser => ErrorClass::Authentication,
        ServerError::InvalidCredentials => ErrorClass::Authentication,
        ServerError::NotPermitted => ErrorClass::Authorization,
        ServerError::NotOwner => ErrorClass::Authorization,
        ServerError::CannotDeleteSelf => ErrorClass::Authorization,
        ServerError::ImmutableUsername => ErrorClass::Authorization,
        ServerError::ImmutableSuspended => ErrorClass::Authorization,
        ServerError::ImmutableVerified => ErrorClass::Authorization,
        ServerError::ImmutableRole => ErrorClass::Authorization,
        ServerError::StorageInvariant => ErrorClass::StorageInvariantViolation,
        ServerError::Storage => ErrorClass::Storage,
    }
}

impl ServerError {
    /// Reports the taxonomy class of this failure.
    pub fn class(&self) -> (c: ErrorClass)
        ensures
            c == class_of(*self),
    {
        match self {
            ServerError::EmptyUsername => ErrorClass::Validation,
            ServerError::InvalidEmail => ErrorClass::Validation,
            ServerError::InvalidPhone => ErrorClass::Validation,
            ServerError::WeakPassword => ErrorClass::Validation,
            ServerError::EmailTaken => ErrorClass::Validation,
            ServerError::InvalidRole => ErrorClass::Validation,
            ServerError::InvalidCourseCost => ErrorClass::Validation,
            ServerError::MustBeSignedOut => ErrorClass::Authentication,
            ServerError::MustBeSignedIn => ErrorClass::Authentication,
            ServerError::UserNotFound => ErrorClass::NotFound,
            ServerError::SuspendedUser => ErrorClass::Authentication,
            ServerError::InvalidCredentials => ErrorClass::Authentication,
            ServerError::NotPermitted => ErrorClass::Authorization,
            ServerError::NotOwner => ErrorClass::Authorization,
            ServerError::CannotDeleteSelf => ErrorClass::Authorization,
            ServerError::ImmutableUsername => ErrorClass::Authorization,
            ServerError::ImmutableSuspended => ErrorClass::Authorization,
            ServerError::ImmutableVerified => ErrorClass::Authorization,
            ServerError::ImmutableRole => ErrorClass::Authorization,
            ServerError::StorageInvariant => ErrorClass::StorageInvariantViolation,
            ServerError::Storage => ErrorClass::Storage,
        }
    }
}


/// The descriptive text of each failure.
pub open spec fn message_of(e: ServerError) -> Seq<char> {
    match e {
        ServerError::MustBeSignedOut => "Must be signed out."@,
        ServerError::MustBeSignedIn => "Must be signed in."@,
        ServerError::EmptyUsername => "Account name cannot be empty."@,
        ServerError::InvalidEmail => "Must be a valid institutional email."@,
        ServerError::InvalidPhone => "Invalid phone number."@,
        ServerError::WeakPassword => "The password does not meet the strength criteria."@,
        ServerError::EmailTaken => "A user with this email already exists."@,
        ServerError::InvalidRole => "Unknown role."@,
        ServerError::InvalidCourseCost => "Invalid course cost."@,
        ServerError::UserNotFound => "User not found."@,
        ServerError::SuspendedUser => "User is suspended."@,
        ServerError::InvalidCredentials => "Invalid username or password."@,
        ServerError::NotPermitted => "You do not have permission to perform this action."@,
        ServerError::NotOwner => "Some courses do not belong to you. No action was taken."@,
        ServerError::CannotDeleteSelf => "You cannot delete your own account as an administrator."@,
        ServerError::ImmutableUsername => "Username cannot be changed."@,
        ServerError::ImmutableSuspended => "Suspended cannot be changed."@,
        ServerError::ImmutableVerified => "Verified cannot be changed."@,
        ServerError::ImmutableRole => "Role cannot be changed."@,
        ServerError::StorageInvariant => "Internal server error."@,
        ServerError::Storage => "Storage failure."@,
    }
}

impl ServerError {
    /// Renders the descriptive text of this failure.
    pub fn message(&self) -> (r: String)
        ensures
            r@ == message_of(*self),
    {
        match self {
            ServerError::MustBeSignedOut => String::from_str("Must be signed out."),
            ServerError::MustBeSignedIn => String::from_str("Must be signed in."),
            ServerError::EmptyUsername => String::from_str("Account name cannot be empty."),
            ServerError::InvalidEmail => String::from_str("Must be a valid institutional email."),
            ServerError::InvalidPhone => String::from_str("Invalid phone number."),
            ServerError::WeakPassword => String::from_str(
                "The password does not meet the strength criteria.",
            ),
            ServerError::EmailTaken => String::from_str("A user with this email already exists."),
            ServerError::InvalidRole => String::from_str("Unknown role."),
            ServerError::InvalidCourseCost => String::from_str("Invalid course cost."),
            ServerError::UserNotFound => String::from_str("User not found."),
            ServerError::SuspendedUser => String::from_str("User is suspended."),
            ServerError::InvalidCredentials => String::from_str("Invalid username or password."),
            ServerError::NotPermitted => String::from_str(
                "You do not have permission to perform this action.",
            ),
            ServerError::NotOwner => String::from_str(
                "Some courses do not belong to you. No action was taken.",
            ),
            ServerError::CannotDeleteSelf => String::from_str(
                "You cannot delete your own account as an administrator.",
            ),
            ServerError::ImmutableUsername => String::from_str("Username cannot be changed."),
            ServerError::ImmutableSuspended => String::from_str("Suspended cannot be changed."),
            ServerError::ImmutableVerified => String::from_str("Verified cannot be changed."),
            ServerError::ImmutableRole => String::from_str("Role cannot be changed."),
            ServerError::StorageInvariant => String::from_str("Internal server error."),
            ServerError::Storage => String::from_str("Storage failure."),
        }
    }
}

/// Derived counts over the current store.
#[derive(Clone, Copy, PartialEq, Eq, Structural, Debug)]
pub struct Statistics {
    pub registered_users: i32,
    pub suspended_users: i32,
    pub faculty_members: i32,
    pub active_students: i32,
    pub graduated_students: i32,
    pub courses: i32,
    pub departments: i32,
}

/// One logical connection: a storage-driver handle and at most one
/// authenticated identity, never persisted across connections.
pub struct ServerConnection {
    pub db: DbDriver,
    pub session: Option<User>,
}

/// What registration rejects, in check order: an existing session, an
/// empty account name, a malformed email, a non-empty malformed phone, a
/// weak password, and a lowercased email some user already has.
pub open spec fn register_error(
    sess: Option<UserView>,
    users: Seq<UserView>,
    u: UserView,
) -> Option<ServerError> {
    if sess is Some {
        Some(ServerError::MustBeSignedOut)
    } else if u.username.len() == 0 {
        Some(ServerError::EmptyUsername)
    } else if !valid_email(u.email) {
        Some(ServerError::InvalidEmail)
    } else if u.phone.len() > 0 && !valid_phone(u.phone) {
        Some(ServerError::InvalidPhone)
    } else if !valid_password(u.password) {
        Some(ServerError::WeakPassword)
    } else if users_with_email(users, lower_seq(u.email)).len() > 0 {
        Some(ServerError::EmailTaken)
    } else {
        None
    }
}

/// The registered record: the user as supplied, with the password
/// replaced by its salted hash.
pub open spec fn hashed_registration(u: UserView, salt: Seq<char>) -> UserView {
    UserView { password: hash_of(u.password, salt), ..u }
}

/// What login rejects: an unknown email, a suspended account, a password
/// that does not verify. Login reads the first stored user with the
/// email, in storage order. An unknown email and a failing password
/// surface the same generic invalid-credentials failure, so a caller can
/// never tell whether the email is registered; only a suspended account
/// is reported as such.
pub open spec fn login_error(
    users: Seq<UserView>,
    email: Seq<char>,
    password: Seq<char>,
) -> Option<ServerError> {
    let m = users_with_email(users, email);
    if m.len() == 0 {
        Some(ServerError::InvalidCredentials)
    } else if m[0].suspended {
        Some(ServerError::SuspendedUser)
    } else if !credential_matches(m[0].password, password) {
        Some(ServerError::InvalidCredentials)
    } else {
        None
    }
}

impl ServerConnection {
    /// The authenticated identity, if any.
    pub open spec fn session_view(&self) -> Option<UserView> {
        match self.session {
            Some(u) => Some(u@),
            None => None,
        }
    }

    /// The session's resolved role; an anonymous session has none.
    pub open spec fn session_role(&self) -> Role {
        match self.session {
            Some(u) => role_of(u@.role),
            None => Role::Unknown,
        }
    }

    /// Opens a connection with an empty store and no session.
    pub fn new() -> (r: Self)
        ensures
            r.db@.users.len() == 0,
            r.db@.student_accounts.len() == 0,
            r.db@.teacher_accounts.len() == 0,
            r.db@.courses.len() == 0,
            r.db@.student_courses.len() == 0,
            r.db@.departments.len() == 0,
            r.session is None,
    {
        ServerConnection { db: DbDriver::init(), session: None }
    }

    /// Clears the session; always succeeds, signed in or not.
    pub fn logout(&mut self)
        ensures
            final(self).session is None,
            final(self).db == old(self).db,
    {
        self.session = None;
    }

    /// Unrestricted read access: passes a query through to the driver.
    pub fn find(&self, table: Table, filters: Vec<Filter>, comb: Option<Associativity>) -> (r:
        Result<Vec<ReceiverType>, DbError>)
        ensures
            match r {
                Ok(rows) => rows.deep_view() == found_rows(self.db@, table, filters@, comb),
                Err(_) => false,
            },
    {
        self.db.find(table, filters, comb)
    }

    /// Fetches the users a filter list selects under the default
    /// combinator, in storage order.
    pub fn get_users_by_filters(&self, filters: Vec<Filter>) -> (r: Result<
        Vec<User>,
        ServerError,
    >)
        ensures
            match r {
                Ok(us) => us.deep_view() == filtered_users(self.db@.users, filters@, None),
                Err(_) => false,
            },
    {
        let ghost fsv = filters@;
        let found = match self.db.find(Table::Users, filters, None) {
            Ok(v) => v,
            Err(_) => {
                return Err(ServerError::Storage);
            },
        };
        proof {
            lemma_selected_wrap(self.db@.users, fsv, None);
        }
        let ghost fu = filtered_users(self.db@.users, fsv, None);
        let n = found.len();
        proof {
            assert(found.deep_view().len() == n);
        }
        let mut out: Vec<User> = Vec::new();
        let mut i: usize = 0;
        while i < n
            invariant
                n == found@.len(),
                fu == filtered_users(self.db@.users, fsv, None),
                found.deep_view() == selected_users(self.db@.users, fsv, None),
                fu.len() == n,
                forall|j: int|
                    0 <= j < n ==> selected_users(self.db@.users, fsv, None)[j] == EntityView::User(
                        #[trigger] fu[j],
                    ),
                i <= n,
                out@.len() == i,
                forall|j: int| 0 <= j < i ==> out@[j]@ == fu[j],
            decreases n - i,
        {
            proof {
                assert(found.deep_view()[i as int] == found@[i as int]@);
                assert(selected_users(self.db@.users, fsv, None)[i as int] == EntityView::User(
                    fu[i as int],
                ));
                assert(found@[i as int] is User) by {
                    match found@[i as int] {
                        ReceiverType::User(_) => {},
                        ReceiverType::StudentAccount(_) => {
                            assert(found@[i as int]@ is StudentAccount);
                        },
                        ReceiverType::TeacherAccount(_) => {
                            assert(found@[i as int]@ is TeacherAccount);
                        },
                        ReceiverType::Course(_) => {
                            assert(found@[i as int]@ is Course);
                        },
                        ReceiverType::StudentCourse(_) => {
                            assert(found@[i as int]@ is StudentCourse);
                        },
                        ReceiverType::Department(_) => {
                            assert(found@[i as int]@ is Department);
                        },
                    }
                }
            }
            match &found[i] {
                ReceiverType::User(u) => {
                    out.push(u.clone());
                },
                _ => {
                    proof {
                        assert(false);
                    }
                },
            }
            i += 1;
        }
        assert(out.deep_view() =~= fu);
        Ok(out)
    }

    /// Fetches every user, in storage order.
    pub fn get_users(&self) -> (r: Result<Vec<User>, ServerError>)
        ensures
            match r {
                Ok(us) => us.deep_view() == self.db@.users,
                Err(_) => false,
            },
    {
        let empty: Vec<Filter> = Vec::new();
        let ghost fsv = empty@;
        let all = match self.get_users_by_filters(empty) {
            Ok(v) => v,
            Err(e) => {
                return Err(e);
            },
        };
        proof {
            assert(fsv =~= Seq::<Filter>::empty());
            lemma_filtered_all(self.db@.users, None);
        }
        Ok(all)
    }

    /// Fetches the user with one id. A missing row is a not-found
    /// failure; more than one row with the same id is a fatal storage
    /// invariant violation, reported loudly instead of picking one.
    pub fn get_user(&self, id: i32) -> (r: Result<User, ServerError>)
        ensures
            ({
                let m = users_with_id(self.db@.users, id);
                match r {
                    Ok(u) => m.len() == 1 && u@ == m[0],
                    Err(ServerError::UserNotFound) => m.len() == 0,
                    Err(ServerError::StorageInvariant) => m.len() > 1,
                    Err(_) => false,
                }
            }),
    {
        let fs = vec![Filter::Users(UsersFilter::Id(id))];
        let ghost fsv = fs@;
        let mut found = match self.get_users_by_filters(fs) {
            Ok(v) => v,
            Err(e) => {
                return Err(e);
            },
        };
        proof {
            assert(fsv =~= seq![Filter::Users(UsersFilter::Id(id))]);
            lemma_filtered_id(self.db@.users, id);
        }
        if found.len() == 0 {
            Err(ServerError::UserNotFound)
        } else if found.len() > 1 {
            Err(ServerError::StorageInvariant)
        } else {
            match found.pop() {
                Some(u) => Ok(u),
                None => Err(ServerError::StorageInvariant),
            }
        }
    }

    /// Authenticates by email and password: looks the user up by exact
    /// email, rejects a suspended account, verifies the password against
    /// the stored credential, and on success holds the user as the
    /// session identity. Any failure leaves the session unchanged, and an
    /// unknown email is indistinguishable from a wrong password: both
    /// come back as the one generic invalid-credentials failure.
    pub fn login(&mut self, email: String, password: String) -> (r: Result<(), ServerError>)
        ensures
            final(self).db == old(self).db,
            match r {
                Ok(()) => login_error(old(self).db@.users, email@, password@) is None && (
                final(self).session matches Some(u) && u@ == users_with_email(
                    old(self).db@.users,
                    email@,
                )[0]),
                Err(e) => Some(e) == login_error(old(self).db@.users, email@, password@)
                    && final(self).session == old(self).session,
            },
    {
        let ghost ev = email@;
        let fs = vec![Filter::Users(UsersFilter::Email(email))];
        let ghost fsv = fs@;
        let found = match self.get_users_by_filters(fs) {
            Ok(v) => v,
            Err(e) => {
                return Err(e);
            },
        };
        proof {
            assert(fsv[0] matches Filter::Users(UsersFilter::Email(s)) && s@ == ev);
            assert(fsv =~= seq![fsv[0]]);
            match fsv[0] {
                Filter::Users(UsersFilter::Email(s)) => {
                    lemma_filtered_email(self.db@.users, s);
                },
                _ => {},
            }
        }
        if found.len() == 0 {
            return Err(ServerError::InvalidCredentials);
        }
        let ghost m = users_with_email(self.db@.users, ev);
        let first = found[0].clone();
        assert(first@ == m[0]);
        if first.suspended {
            return Err(ServerError::SuspendedUser);
        }
        if verify(first.password.as_str(), password.as_str()) {
            self.session = Some(first);
            Ok(())
        } else {
            Err(ServerError::InvalidCredentials)
        }
    }

    /// Registers an account while anonymous: validates the account name,
    /// the institutional email, the phone if one is given and the
    /// password rules, rejects an email some user already has, then
    /// persists the user with a freshly salted hash in place of the
    /// password. The password length bound keeps the credential under the
    /// hashing collaborator's input limit.
    pub fn register_user(&mut self, user: User) -> (r: Result<(), ServerError>)
        requires
            user@.password.len() < 0x4000_0000,
        ensures
            final(self).session == old(self).session,
            match r {
                Ok(()) => register_error(old(self).session_view(), old(self).db@.users, user@)
                    is None && (exists|salt: Seq<char>|
                    #[trigger] is_salt(salt) && final(self).db@ == insert_one(
                        old(self).db@,
                        EntityView::User(hashed_registration(user@, salt)),
                    )),
                Err(e) => Some(e) == register_error(
                    old(self).session_view(),
                    old(self).db@.users,
                    user@,
                ) && final(self).db == old(self).db,
            },
    {
        let ghost uv = user@;
        if self.session.is_some() {
            return Err(ServerError::MustBeSignedOut);
        }
        if user.username.as_str().unicode_len() == 0 {
            return Err(ServerError::EmptyUsername);
        }
        if !check_email(user.email.as_str()) {
            return Err(ServerError::InvalidEmail);
        }
        if user.phone.as_str().unicode_len() > 0 && !check_phone(user.phone.as_str()) {
            return Err(ServerError::InvalidPhone);
        }
        if !check_password(user.password.as_str()) {
            return Err(ServerError::WeakPassword);
        }
        let lower_email = to_lower(user.email.as_str());
        let ghost le = lower_email;
        let fs = vec![Filter::Users(UsersFilter::Email(lower_email))];
        let ghost fsv = fs@;
        let existing = match self.get_users_by_filters(fs) {
            Ok(v) => v,
            Err(e) => {
                return Err(e);
            },
        };
        proof {
            assert(fsv =~= seq![Filter::Users(UsersFilter::Email(le))]);
            lemma_filtered_email(self.db@.users, le);
        }
        if existing.len() > 0 {
            return Err(ServerError::EmailTaken);
        }
        let salt = generate_salt();
        let hashed = match hash(user.password.as_str(), salt.as_str()) {
            Some(h) => h,
            None => {
                return Err(ServerError::Storage);
            },
        };
        let record = User {
            id: user.id,
            username: user.username,
            password: hashed,
            email: user.email,
            phone: user.phone,
            verified: user.verified,
            suspended: user.suspended,
            forcenewpw: user.forcenewpw,
            role: user.role,
        };
        let ghost rv = record@;
        proof {
            assert(rv =~= hashed_registration(uv, salt@));
        }
        let entities = vec![ReceiverType::User(record)];
        proof {
            assert(entities.deep_view() =~= seq![EntityView::User(rv)]);
        }
        let ghost before = self.db@;
        let res = self.db.insert(entities);
        proof {
            lemma_apply_singleton(before, EntityView::User(rv), Action::Insert);
            assert(is_salt(salt@));
        }
        match res {
            Ok(()) => Ok(()),
            Err(_) => Ok(()),
        }
    }
}

} // verus!
