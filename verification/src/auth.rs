//! Logging in, and what each role may see.

use crate::accounts::{new_user, DbError, User};
use crate::ids::{drawn, is_random_uuid};
use crate::passwords::{
    bcrypt_gave, hash_password, is_hash, opens, verify_password, HashError,
};
use crate::text::{begins_with, same_text, text_of};
use bcrypt::BcryptError;
use vstd::prelude::*;

verus! {

/// What a login form holds.
#[derive(Debug)]
pub struct LoginPayload {
    pub username: String,
    pub password: String,
}

/// What is shown of a user.
#[derive(Debug)]
pub struct UserResponse {
    pub id: String,
    pub username: String,
    pub role: String,
}

/// A request to create a user.
#[derive(Debug)]
pub struct CreateUserPayload {
    pub username: String,
    pub password: String,
    pub role: String,
}

/// The settings of the hub.
#[derive(Debug)]
pub struct SettingsPayload {
    pub mode: String,
    pub server_ip: String,
}

/// Why a request was turned down.
#[derive(Clone, Copy, Debug, PartialEq, Eq, Structural)]
pub enum AuthError {
    Database,
    InvalidLogin,
    SessionFailed,
    UsernameTaken,
    CreateFailed,
    SettingsFailed,
}

/// What a login gives: a session, and the page to go to.
#[derive(Debug)]
pub struct Login {
    pub session_id: String,
    pub redirect: String,
}

/// What becomes of a request for a page.
#[derive(Debug)]
pub enum Access {
    /// Nobody is logged in: off to the login page.
    SignIn,
    /// The role may not see the page.
    Forbidden,
    /// The user may see the page.
    Granted(User),
}

/// What becomes of a request to create a user.
#[derive(Debug)]
pub enum UserPlan {
    /// The request is turned down.
    Rejected(AuthError),
    /// The password could not be hashed.
    HashFailed(HashError),
    /// This user is to be stored.
    Store(User),
}

/// The page that a role starts on.
pub open spec fn home_page(role: Seq<char>) -> Seq<char> {
    if role == "speaker"@ {
        "/receiver"@
    } else if role == "mic"@ {
        "/sender"@
    } else if role == "controller"@ {
        "/controller"@
    } else if role == "admin"@ {
        "/admin"@
    } else {
        "/"@
    }
}

/// A role may see a page.
pub open spec fn may_see(role: Seq<char>, path: Seq<char>) -> bool {
    ||| role == "admin"@
    ||| role == "speaker"@ && "/receiver"@.is_prefix_of(path)
    ||| role == "mic"@ && "/sender"@.is_prefix_of(path)
    ||| role == "controller"@ && "/controller"@.is_prefix_of(path)
    ||| path == "/"@
}

/// What becomes of a login: the user, or why not.
pub open spec fn login_outcome(
    lookup: Result<Option<User>, DbError>,
    password: Seq<char>,
) -> Result<User, AuthError> {
    match lookup {
        Err(_) => Err(AuthError::Database),
        Ok(None) => Err(AuthError::InvalidLogin),
        Ok(Some(user)) => if opens(password, user.password_hash@) {
            Ok(user)
        } else {
            Err(AuthError::InvalidLogin)
        },
    }
}

/// A user as created on a request: under a fresh identifier, with a hash that the
/// password of the request belongs to.
pub open spec fn is_created(user: User, payload: CreateUserPayload) -> bool {
    &&& is_random_uuid(user.id@)
    &&& drawn(user.id@)
    &&& user.username@ == payload.username@
    &&& user.role@ == payload.role@
    &&& is_hash(user.password_hash@)
    &&& opens(payload.password@, user.password_hash@)
}

/// What is shown of a user.
pub open spec fn shown(user: User) -> UserResponse {
    UserResponse { id: user.id, username: user.username, role: user.role }
}

/// The text of a setting that was read from the store.
pub open spec fn stored_text(stored: Result<Option<String>, DbError>) -> Option<Seq<char>> {
    match stored {
        Ok(Some(value)) => Some(value@),
        _ => None,
    }
}

/// A setting that was read from the store, or else its default.
pub open spec fn setting_or(stored: Option<Seq<char>>, default: Seq<char>) -> Seq<char> {
    match stored {
        Some(value) => value,
        None => default,
    }
}

/// The texts of keys and values.
pub open spec fn pair_texts(pairs: Seq<(String, String)>) -> Seq<(Seq<char>, Seq<char>)> {
    pairs.map_values(|pair: (String, String)| (pair.0@, pair.1@))
}

/// What a store holds under a key after keys and values were stored in turn: the last
/// value that was stored under it.
pub open spec fn stored_under(
    pairs: Seq<(Seq<char>, Seq<char>)>,
    key: Seq<char>,
) -> Option<Seq<char>>
    decreases pairs.len(),
{
    if pairs.len() == 0 {
        None
    } else if pairs.last().0 == key {
        Some(pairs.last().1)
    } else {
        stored_under(pairs.drop_last(), key)
    }
}

/// What is stored of the settings.
pub open spec fn settings_pairs(mode: Seq<char>, server_ip: Seq<char>) -> Seq<
    (Seq<char>, Seq<char>),
> {
    seq![("streaming_mode"@, mode), ("server_ip"@, server_ip)]
}

impl AuthError {
    /// The status of the answer.
    pub fn status(&self) -> (r: u16)
        ensures
            r == (match self {
                AuthError::InvalidLogin => 401u16,
                AuthError::UsernameTaken => 400u16,
                AuthError::Database
                | AuthError::SessionFailed
                | AuthError::CreateFailed
                | AuthError::SettingsFailed => 500u16,
            }),
    {
        match self {
            AuthError::InvalidLogin => 401,
            AuthError::UsernameTaken => 400,
            AuthError::Database => 500,
            AuthError::SessionFailed => 500,
            AuthError::CreateFailed => 500,
            AuthError::SettingsFailed => 500,
        }
    }

    /// The text of the answer.
    pub fn message(&self) -> (r: String)
        ensures
            r@ == (match self {
                AuthError::Database => "DB Error"@,
                AuthError::InvalidLogin => "Invalid username or password"@,
                AuthError::SessionFailed => "Session creation failed"@,
                AuthError::UsernameTaken => "Username already exists"@,
                AuthError::CreateFailed => "Failed to create user"@,
                AuthError::SettingsFailed => "Failed to save settings"@,
            }),
    {
        match self {
            AuthError::Database => "DB Error".to_owned(),
            AuthError::InvalidLogin => "Invalid username or password".to_owned(),
            AuthError::SessionFailed => "Session creation failed".to_owned(),
            AuthError::UsernameTaken => "Username already exists".to_owned(),
            AuthError::CreateFailed => "Failed to create user".to_owned(),
            AuthError::SettingsFailed => "Failed to save settings".to_owned(),
        }
    }
}

impl Access {
    /// The page to go to instead of the one asked for: the login page, where nobody is
    /// logged in.
    pub fn redirect(&self) -> (r: Option<String>)
        ensures
            text_of(r) == (match self {
                Access::SignIn => Some("/login"@),
                Access::Forbidden | Access::Granted(_) => None,
            }),
    {
        match self {
            Access::SignIn => Some("/login".to_owned()),
            _ => None,
        }
    }

    /// The page that is shown instead of the one asked for, where the role may not see
    /// that one.
    pub fn refusal(&self) -> (r: Option<String>)
        ensures
            text_of(r) == (match self {
                Access::Forbidden => Some(
                    "<h1>403 Forbidden</h1><p>You do not have the required role to access this page.</p>"@,
                ),
                Access::SignIn | Access::Granted(_) => None,
            }),
    {
        match self {
            Access::Forbidden => Some(
                "<h1>403 Forbidden</h1><p>You do not have the required role to access this page.</p>".to_owned(),
            ),
            _ => None,
        }
    }
}

/// The user who logs in, found in the store by name, where the password was found
/// valid.
pub fn judge_login(user: User, valid: bool) -> (r: Result<User, AuthError>)
    ensures
        r == (if valid {
            Ok(user)
        } else {
            Err(AuthError::InvalidLogin)
        }),
{
    if valid {
        Ok(user)
    } else {
        Err(AuthError::InvalidLogin)
    }
}

/// The user who logs in with a password, as the store knows the user by name.
pub fn check_login(lookup: Result<Option<User>, DbError>, payload: &LoginPayload) -> (r: Result<
    User,
    AuthError,
>)
    ensures
        r == login_outcome(lookup, payload.password@),
{
    match lookup {
        Err(_) => Err(AuthError::Database),
        Ok(None) => Err(AuthError::InvalidLogin),
        Ok(Some(user)) => {
            let valid: bool = verify_password(
                payload.password.as_str(),
                user.password_hash.as_str(),
            );
            judge_login(user, valid)
        },
    }
}

/// The page that a role starts on.
pub fn start_page(role: &str) -> (r: String)
    ensures
        r@ == home_page(role@),
{
    if same_text(role, "speaker") {
        "/receiver".to_owned()
    } else if same_text(role, "mic") {
        "/sender".to_owned()
    } else if same_text(role, "controller") {
        "/controller".to_owned()
    } else if same_text(role, "admin") {
        "/admin".to_owned()
    } else {
        "/".to_owned()
    }
}

/// The end of a login of a user, for whom a session was stored, or could not be.
pub fn login_post(user: &User, session: Result<String, DbError>) -> (r: Result<Login, AuthError>)
    ensures
        r is Ok <==> session is Ok,
        r matches Ok(login) ==> login.session_id@ == session->Ok_0@ && login.redirect@ == home_page(
            user.role@,
        ),
        r matches Err(e) ==> e == AuthError::SessionFailed,
{
    match session {
        Ok(session_id) => Ok(Login { session_id, redirect: start_page(user.role.as_str()) }),
        Err(_) => Err(AuthError::SessionFailed),
    }
}

/// The page to go to after logging out.
pub fn logout() -> (r: String)
    ensures
        r@ == "/login"@,
{
    "/login".to_owned()
}

/// Whether a role may see a page.
pub fn is_allowed(role: &str, path: &str) -> (r: bool)
    ensures
        r == may_see(role@, path@),
{
    same_text(role, "admin") || (begins_with(path, "/receiver") && same_text(role, "speaker")) || (
    begins_with(path, "/sender") && same_text(role, "mic")) || (begins_with(path, "/controller")
        && same_text(role, "controller")) || same_text(path, "/")
}

/// What becomes of a request for a page by the user of a session, as the store knows
/// it. A store that fails counts as one that knows no such session.
pub fn require_role(path: &str, lookup: Result<Option<User>, DbError>) -> (r: Access)
    ensures
        r == (match lookup {
            Ok(Some(user)) => if may_see(user.role@, path@) {
                Access::Granted(user)
            } else {
                Access::Forbidden
            },
            _ => Access::SignIn,
        }),
{
    match lookup {
        Ok(Some(user)) => {
            if is_allowed(user.role.as_str(), path) {
                Access::Granted(user)
            } else {
                Access::Forbidden
            }
        },
        _ => Access::SignIn,
    }
}

/// What is shown of a user.
pub fn show_user(user: &User) -> (r: UserResponse)
    ensures
        r == shown(*user),
{
    UserResponse {
        id: user.id.clone(),
        username: user.username.clone(),
        role: user.role.clone(),
    }
}

/// What is shown of all users; nothing where the store fails.
pub fn list_users(users: Result<Vec<User>, DbError>) -> (r: Vec<UserResponse>)
    ensures
        r@ == (match users {
            Ok(list) => list@.map_values(|u: User| shown(u)),
            Err(_) => Seq::empty(),
        }),
{
    let mut r: Vec<UserResponse> = Vec::new();
    match users {
        Ok(list) => {
            let mut i: usize = 0;
            while i < list.len()
                invariant
                    i <= list@.len(),
                    r@ == list@.take(i as int).map_values(|u: User| shown(u)),
                decreases list@.len() - i,
            {
                r.push(show_user(&list[i]));
                i += 1;
                assert(list@.take(i as int).map_values(|u: User| shown(u)) =~= list@.take(
                    i - 1,
                ).map_values(|u: User| shown(u)).push(shown(list@[i - 1])));
            }
            assert(list@.take(i as int) =~= list@);
            r
        },
        Err(_) => r,
    }
}

/// What becomes of a request to create a user, given whom the store knows under that
/// name. A store that fails counts as one that knows nobody.
pub fn plan_user(lookup: Result<Option<User>, DbError>, payload: &CreateUserPayload) -> (r: UserPlan)
    ensures
        r is Rejected <==> (lookup matches Ok(Some(_))),
        r matches UserPlan::Rejected(e) ==> e == AuthError::UsernameTaken,
        r matches UserPlan::Store(user) ==> is_created(user, *payload),
        !(lookup matches Ok(Some(_))) ==> exists|outcome: Result<String, BcryptError>| #[trigger]
            bcrypt_gave(payload.password@, outcome) && match outcome {
                Ok(hash) => r matches UserPlan::Store(user) && user.password_hash@ == hash@,
                Err(_) => r == UserPlan::HashFailed(HashError::NoSalt),
            },
{
    match lookup {
        Ok(Some(_)) => UserPlan::Rejected(AuthError::UsernameTaken),
        _ => store_plan(payload, hash_password(payload.password.as_str())),
    }
}

/// What becomes of a request to create a user whose name is free, given what hashing
/// the password gave.
pub fn store_plan(payload: &CreateUserPayload, hash: Result<String, HashError>) -> (r: UserPlan)
    ensures
        !(r is Rejected),
        r matches UserPlan::HashFailed(e) ==> hash == Err::<String, HashError>(e),
        hash is Err ==> r is HashFailed,
        hash matches Ok(h) ==> {
            &&& r is Store
            &&& is_random_uuid(r->Store_0.id@)
            &&& drawn(r->Store_0.id@)
            &&& r->Store_0.username@ == payload.username@
            &&& r->Store_0.password_hash@ == h@
            &&& r->Store_0.role@ == payload.role@
        },
{
    match hash {
        Ok(h) => UserPlan::Store(
            new_user(payload.username.as_str(), h.as_str(), payload.role.as_str()),
        ),
        Err(e) => UserPlan::HashFailed(e),
    }
}

/// The answer to a request to create a user: the user as stored, or that storing
/// failed.
pub fn create_user(stored: Result<User, DbError>) -> (r: Result<UserResponse, AuthError>)
    ensures
        r == (match stored {
            Ok(user) => Ok(shown(user)),
            Err(_) => Err(AuthError::CreateFailed),
        }),
{
    match stored {
        Ok(user) => Ok(show_user(&user)),
        Err(_) => Err(AuthError::CreateFailed),
    }
}

/// The key that the mode of streaming is stored under.
pub fn mode_key() -> (r: String)
    ensures
        r@ == "streaming_mode"@,
{
    "streaming_mode".to_owned()
}

/// The key that the address of the server is stored under.
pub fn server_ip_key() -> (r: String)
    ensures
        r@ == "server_ip"@,
{
    "server_ip".to_owned()
}

/// The settings, as far as the store has them: by default, streaming in the local
/// network and no address.
pub fn get_settings(
    mode: Result<Option<String>, DbError>,
    server_ip: Result<Option<String>, DbError>,
) -> (r: SettingsPayload)
    ensures
        r.mode@ == setting_or(stored_text(mode), "lan"@),
        r.server_ip@ == setting_or(stored_text(server_ip), ""@),
{
    SettingsPayload {
        mode: match mode {
            Ok(Some(value)) => value,
            _ => "lan".to_owned(),
        },
        server_ip: match server_ip {
            Ok(Some(value)) => value,
            _ => "".to_owned(),
        },
    }
}

/// What is to be stored of the settings: keys and values, in this order, up to the
/// first that fails.
pub fn update_settings(payload: &SettingsPayload) -> (r: Vec<(String, String)>)
    ensures
        pair_texts(r@) == settings_pairs(payload.mode@, payload.server_ip@),
{
    let mut r: Vec<(String, String)> = Vec::new();
    r.push((mode_key(), payload.mode.clone()));
    r.push((server_ip_key(), payload.server_ip.clone()));
    assert(pair_texts(r@) =~= settings_pairs(payload.mode@, payload.server_ip@));
    r
}

/// The answer to a request to change the settings, after they were stored or not.
pub fn settings_stored(stored: Result<(), DbError>, payload: SettingsPayload) -> (r: Result<
    SettingsPayload,
    AuthError,
>)
    ensures
        r == (match stored {
            Ok(_) => Ok(payload),
            Err(_) => Err(AuthError::SettingsFailed),
        }),
{
    match stored {
        Ok(_) => Ok(payload),
        Err(_) => Err(AuthError::SettingsFailed),
    }
}

} // verus!
