//! Accounts: who a logged-in client is, what the user store keeps of an
//! account, and the decisions taken when a client registers, logs in or has an
//! account made for it by an administrator.

use crate::password::{
    argon2_accepts, argon2_phc_hash, fits_argon2, hash_new_password, phc_parse_failure, stored_hash_accepts,
    verify_password,
};
use vstd::prelude::*;
use vstd::utf8::encode_utf8;

verus! {

/// The account a client logged in with.
#[derive(Debug, Clone, PartialEq, Eq)]
pub struct AuthUser {
    pub id: i32,
    pub username: String,
    pub role: String,
}

/// An account as the user store keeps it.
#[derive(Debug, Clone, PartialEq, Eq)]
pub struct UserRecord {
    pub id: i32,
    pub username: String,
    pub password_hash: String,
    pub role: String,
}

/// An account to be added to the user store.
#[derive(Debug, Clone, PartialEq, Eq)]
pub struct NewUser {
    pub username: String,
    pub password_hash: String,
    pub role: String,
}

/// Why registering, logging in or creating an account failed.
#[derive(Debug, Clone, PartialEq, Eq)]
pub enum AuthError {
    PasswordsDoNotMatch,
    UsernameExists,
    UserNotFound,
    InvalidPassword,
    /// The stored hash does not read as a PHC string; the parser's message.
    HashParse(String),
    /// Argon2 refused to hash the password; its message.
    Hashing(String),
    /// The user store failed; its message.
    Database(String),
}

/// An `AuthUser` as values.
pub struct AuthUserModel {
    pub id: i32,
    pub username: Seq<char>,
    pub role: Seq<char>,
}

/// A `UserRecord` as values.
pub struct UserRecordModel {
    pub id: i32,
    pub username: Seq<char>,
    pub password_hash: Seq<char>,
    pub role: Seq<char>,
}

/// An `AuthError` as values.
pub enum AuthErrorModel {
    PasswordsDoNotMatch,
    UsernameExists,
    UserNotFound,
    InvalidPassword,
    HashParse(Seq<char>),
    Hashing(Seq<char>),
    Database(Seq<char>),
}

impl View for AuthUser {
    type V = AuthUserModel;

    open spec fn view(&self) -> AuthUserModel {
        AuthUserModel { id: self.id, username: self.username@, role: self.role@ }
    }
}

impl View for UserRecord {
    type V = UserRecordModel;

    open spec fn view(&self) -> UserRecordModel {
        UserRecordModel {
            id: self.id,
            username: self.username@,
            password_hash: self.password_hash@,
            role: self.role@,
        }
    }
}

impl View for AuthError {
    type V = AuthErrorModel;

    open spec fn view(&self) -> AuthErrorModel {
        match self {
            AuthError::PasswordsDoNotMatch => AuthErrorModel::PasswordsDoNotMatch,
            AuthError::UsernameExists => AuthErrorModel::UsernameExists,
            AuthError::UserNotFound => AuthErrorModel::UserNotFound,
            AuthError::InvalidPassword => AuthErrorModel::InvalidPassword,
            AuthError::HashParse(m) => AuthErrorModel::HashParse(m@),
            AuthError::Hashing(m) => AuthErrorModel::Hashing(m@),
            AuthError::Database(m) => AuthErrorModel::Database(m@),
        }
    }
}

impl AuthErrorModel {
    /// The text a client is shown for the error.
    pub open spec fn message(self) -> Seq<char> {
        match self {
            AuthErrorModel::PasswordsDoNotMatch => "Passwords do not match"@,
            AuthErrorModel::UsernameExists => "Username already exists"@,
            AuthErrorModel::UserNotFound => "User not found"@,
            AuthErrorModel::InvalidPassword => "Invalid password"@,
            AuthErrorModel::HashParse(m) => "Password hash parse error: "@ + m,
            AuthErrorModel::Hashing(m) => "Password hashing failed: "@ + m,
            AuthErrorModel::Database(m) => m,
        }
    }
}

impl AuthError {
    /// The text a client is shown for the error.
    pub fn message(&self) -> (m: String)
        ensures
            m@ == self@.message(),
    {
        match self {
            AuthError::PasswordsDoNotMatch => String::from_str("Passwords do not match"),
            AuthError::UsernameExists => String::from_str("Username already exists"),
            AuthError::UserNotFound => String::from_str("User not found"),
            AuthError::InvalidPassword => String::from_str("Invalid password"),
            AuthError::HashParse(d) => {
                let mut m = String::from_str("Password hash parse error: ");
                m.append(d.as_str());
                m
            },
            AuthError::Hashing(d) => {
                let mut m = String::from_str("Password hashing failed: ");
                m.append(d.as_str());
                m
            },
            AuthError::Database(d) => d.clone(),
        }
    }
}

/// The result of a login, as values.
pub open spec fn login_model(r: Result<AuthUser, AuthError>) -> Result<AuthUserModel, AuthErrorModel> {
    match r {
        Ok(u) => Ok(u@),
        Err(e) => Err(e@),
    }
}

/// What a login with `password` comes to, given the account that the user
/// store holds under the name that was given, if any.
pub open spec fn login_result(record: Option<UserRecordModel>, password: Seq<char>) -> Result<
    AuthUserModel,
    AuthErrorModel,
> {
    match record {
        None => Err(AuthErrorModel::UserNotFound),
        Some(r) => match phc_parse_failure(r.password_hash) {
            Some(m) => Err(AuthErrorModel::HashParse(m)),
            None => if argon2_accepts(encode_utf8(password), r.password_hash) {
                Ok(AuthUserModel { id: r.id, username: r.username, role: r.role })
            } else {
                Err(AuthErrorModel::InvalidPassword)
            },
        },
    }
}

/// `r` is an account for `username` with `role` whose hash Argon2 made of
/// `password` with some salt and which accepts `password`; or the error of
/// such a hashing.
pub open spec fn hashed_account(
    r: Result<NewUser, AuthError>,
    username: Seq<char>,
    password: Seq<char>,
    role: Seq<char>,
) -> bool {
    match r {
        Ok(u) => {
            &&& u.username@ == username
            &&& u.role@ == role
            &&& stored_hash_accepts(u.password_hash@, password)
            &&& exists|salt: Seq<char>|
                #[trigger] argon2_phc_hash(encode_utf8(password), salt) == Ok::<
                    Seq<char>,
                    Seq<char>,
                >(u.password_hash@)
        },
        Err(e) => {
            &&& e@ is Hashing
            &&& exists|salt: Seq<char>|
                #[trigger] argon2_phc_hash(encode_utf8(password), salt) == Err::<
                    Seq<char>,
                    Seq<char>,
                >(e@->Hashing_0)
        },
    }
}

/// The first check of a registration: the password and its confirmation are
/// the same text.
pub fn check_confirmation(password: &str, confirm: &str) -> (r: Result<(), AuthError>)
    ensures
        r is Ok <==> password@ == confirm@,
        r matches Err(e) ==> e@ == AuthErrorModel::PasswordsDoNotMatch,
{
    if password.to_owned() == confirm.to_owned() {
        Ok(())
    } else {
        Err(AuthError::PasswordsDoNotMatch)
    }
}

/// An account for `username` with `role`, its password hashed with a fresh
/// salt.
pub fn hashed_user(username: &str, password: &str, role: &str) -> (r: Result<NewUser, AuthError>)
    ensures
        hashed_account(r, username@, password@, role@),
        fits_argon2(encode_utf8(password@)) ==> r is Ok,
{
    match hash_new_password(password) {
        Ok(h) => Ok(NewUser { username: username.to_owned(), password_hash: h, role: role.to_owned() }),
        Err(m) => Err(AuthError::Hashing(m)),
    }
}

/// The second step of a registration, once the user store has said whether
/// `username` is taken: an ordinary account, or the error.
pub fn registration_record(username: &str, password: &str, username_taken: bool) -> (r: Result<
    NewUser,
    AuthError,
>)
    ensures
        username_taken ==> (r matches Err(e) && e@ == AuthErrorModel::UsernameExists),
        !username_taken ==> hashed_account(r, username@, password@, "user"@),
        !username_taken && fits_argon2(encode_utf8(password@)) ==> r is Ok,
{
    if username_taken {
        Err(AuthError::UsernameExists)
    } else {
        hashed_user(username, password, "user")
    }
}

/// An account that an administrator creates, with the role it is given.
pub fn admin_user_record(username: &str, password: &str, role: &str) -> (r: Result<
    NewUser,
    AuthError,
>)
    ensures
        hashed_account(r, username@, password@, role@),
        fits_argon2(encode_utf8(password@)) ==> r is Ok,
{
    hashed_user(username, password, role)
}

/// The outcome of a login with `password`, given the account that the user
/// store holds under the name that was given, if any.
pub fn login_outcome(record: Option<UserRecord>, password: &str) -> (r: Result<AuthUser, AuthError>)
    ensures
        login_model(r) == login_result(
            match record {
                Some(u) => Some(u@),
                None => None,
            },
            password@,
        ),
{
    match record {
        None => Err(AuthError::UserNotFound),
        Some(rec) => match verify_password(password, rec.password_hash.as_str()) {
            Err(m) => Err(AuthError::HashParse(m)),
            Ok(false) => Err(AuthError::InvalidPassword),
            Ok(true) => Ok(AuthUser { id: rec.id, username: rec.username, role: rec.role }),
        },
    }
}

/// A password that was hashed into an account is accepted when that account
/// logs in with it.
pub proof fn lemma_hashed_password_logs_in(record: UserRecordModel, password: Seq<char>)
    requires
        stored_hash_accepts(record.password_hash, password),
    ensures
        login_result(Some(record), password) == Ok::<AuthUserModel, AuthErrorModel>(
            AuthUserModel { id: record.id, username: record.username, role: record.role },
        ),
{
}

/// A login succeeds only for an existing account whose stored hash accepts the
/// password, and then gives that account's id, name and role.
pub proof fn lemma_login_needs_accepting_hash(record: Option<UserRecordModel>, password: Seq<char>)
    ensures
        login_result(record, password) is Ok ==> {
            &&& record is Some
            &&& stored_hash_accepts(record->0.password_hash, password)
            &&& login_result(record, password)->Ok_0 == AuthUserModel {
                id: record->0.id,
                username: record->0.username,
                role: record->0.role,
            }
        },
{
}

} // verus!
