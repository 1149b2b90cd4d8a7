//! What each step of logging in and of keeping accounts does, said of the calls that
//! make it.

use crate::accounts::{
    account_user, create_session, default_users, get_all_users, init_default_admin, new_user,
    one_row, session_from, session_owner, user_from, Account, DbError, Row, Session, User,
};
use crate::auth::{
    check_login, create_user, get_settings, is_allowed, judge_login, list_users, login_post,
    logout, mode_key, plan_user, require_role, server_ip_key, settings_stored, show_user,
    start_page, store_plan, update_settings, Access, AuthError, CreateUserPayload, Login,
    LoginPayload, SettingsPayload, UserPlan, UserResponse,
};
use crate::ids::{drawn, is_random_uuid};
use crate::passwords::{
    bcrypt_gave, bcrypt_verdict, hash_outcome, hash_password, verify_password, HashError,
};
use bcrypt::BcryptError;
use vstd::prelude::*;

verus! {

/// A request to create a user under a free name fails only where `bcrypt` itself failed
/// on its password: with a hash, a user of the name and role of the request is to be
/// stored, with that hash, which the password opens. A store that fails counts as one
/// that knows nobody; a taken name, and nothing else, is turned down.
pub proof fn law_free_name_is_stored_unless_hashing_fails(
    lookup: Result<Option<User>, DbError>,
    payload: &CreateUserPayload,
    r: UserPlan,
)
    requires
        call_ensures(plan_user, (lookup, payload), r),
    ensures
        (lookup matches Ok(Some(_))) ==> r == UserPlan::Rejected(AuthError::UsernameTaken),
        !(lookup matches Ok(Some(_))) ==> exists|outcome: Result<String, BcryptError>| #[trigger]
            bcrypt_gave(payload.password@, outcome) && match outcome {
                Ok(hash) => r matches UserPlan::Store(user) && user.username@ == payload.username@
                    && user.role@ == payload.role@ && user.password_hash@ == hash@ && drawn(
                    user.id@,
                ) && bcrypt_verdict(payload.password@, user.password_hash@) == Some(true),
                Err(_) => r is HashFailed,
            },
{
    if !(lookup matches Ok(Some(_))) {
        let outcome = choose|outcome: Result<String, BcryptError>| #[trigger]
            bcrypt_gave(payload.password@, outcome) && match outcome {
                Ok(hash) => r matches UserPlan::Store(user) && user.password_hash@ == hash@,
                Err(_) => r == UserPlan::HashFailed(HashError::NoSalt),
            };
        assert(bcrypt_gave(payload.password@, outcome));
    }
}

/// Given what hashing the password gave, a user of a free name is stored with that hash
/// exactly where there is one.
pub proof fn law_plan_follows_the_hash(
    payload: &CreateUserPayload,
    hash: Result<String, HashError>,
    r: UserPlan,
)
    requires
        call_ensures(store_plan, (payload, hash), r),
    ensures
        hash matches Ok(h) ==> (r matches UserPlan::Store(user) && user.username@
            == payload.username@ && user.role@ == payload.role@ && user.password_hash@ == h@
            && drawn(user.id@) && is_random_uuid(user.id@)),
        hash matches Err(e) ==> r == UserPlan::HashFailed(e),
{
}

/// Hashing gives what `bcrypt` gave: its hash, unchanged, exactly where there is one.
pub proof fn law_hash_is_what_bcrypt_gave(password: &str, r: Result<String, HashError>)
    requires
        call_ensures(hash_password, (password,), r),
    ensures
        exists|outcome: Result<String, BcryptError>| #[trigger]
            bcrypt_gave(password@, outcome) && (r is Ok <==> outcome is Ok) && (r matches Ok(
                hash,
            ) ==> outcome == Ok::<String, BcryptError>(hash)),
        r matches Ok(hash) ==> bcrypt_verdict(password@, hash@) == Some(true) && hash@.len() == 60,
{
    let outcome = choose|outcome: Result<String, BcryptError>| #[trigger]
        bcrypt_gave(password@, outcome) && r == (match outcome {
            Ok(hash) => Ok(hash),
            Err(_) => Err(HashError::NoSalt),
        });
    assert(bcrypt_gave(password@, outcome));
}

/// A hash is passed on as it is, and any failure of `bcrypt` is one of hashing.
pub proof fn law_hash_is_passed_on(
    outcome: Result<String, BcryptError>,
    r: Result<String, HashError>,
)
    requires
        call_ensures(hash_outcome, (outcome,), r),
    ensures
        outcome matches Ok(hash) ==> r == Ok::<String, HashError>(hash),
        outcome is Err ==> r is Err,
{
}

/// A password opens a hash exactly where `bcrypt` finds so; a text that is no hash is
/// opened by none.
pub proof fn law_bcrypt_decides(password: &str, hash: &str, r: bool)
    requires
        call_ensures(verify_password, (password, hash), r),
    ensures
        bcrypt_verdict(password@, hash@) == Some(true) ==> r,
        bcrypt_verdict(password@, hash@) == Some(false) ==> !r,
        bcrypt_verdict(password@, hash@) is None ==> !r,
{
}

/// A login succeeds exactly for a user whom the store knows and whose hash the password
/// opens, and it is that user; a store that fails is told as such, and everything else
/// as an invalid login.
pub proof fn law_login_goes_by_the_password(
    lookup: Result<Option<User>, DbError>,
    payload: &LoginPayload,
    r: Result<User, AuthError>,
)
    requires
        call_ensures(check_login, (lookup, payload), r),
    ensures
        lookup is Err ==> r == Err::<User, AuthError>(AuthError::Database),
        (lookup matches Ok(None)) ==> r == Err::<User, AuthError>(AuthError::InvalidLogin),
        lookup matches Ok(Some(user)) ==> r == (if bcrypt_verdict(
            payload.password@,
            user.password_hash@,
        ) == Some(true) {
            Ok::<User, AuthError>(user)
        } else {
            Err(AuthError::InvalidLogin)
        }),
{
}

/// A login is judged by whether the password was found valid.
pub proof fn law_valid_password_logs_in(user: User, valid: bool, r: Result<User, AuthError>)
    requires
        call_ensures(judge_login, (user, valid), r),
    ensures
        valid ==> r == Ok::<User, AuthError>(user),
        !valid ==> r == Err::<User, AuthError>(AuthError::InvalidLogin),
{
}

/// Each role starts on its own page, and any other on the front page; every role may
/// see the page that it starts on.
pub proof fn law_each_role_has_its_page(role: &str, page: String, path: &str, allowed: bool)
    requires
        call_ensures(start_page, (role,), page),
        call_ensures(is_allowed, (role, path), allowed),
    ensures
        role@ == "speaker"@ ==> page@ == "/receiver"@,
        role@ == "mic"@ ==> page@ == "/sender"@,
        role@ == "controller"@ ==> page@ == "/controller"@,
        role@ == "admin"@ ==> page@ == "/admin"@,
        role@ != "speaker"@ && role@ != "mic"@ && role@ != "controller"@ && role@ != "admin"@
            ==> page@ == "/"@,
        path@ == page@ ==> allowed,
{
    lemma_roles_differ();
    crate::auth_laws::law_home_page_is_open(role@);
}

/// An administrator may see every page, everyone the front page, and each other role
/// the pages whose address begins with that of its own; nobody may see anything else.
pub proof fn law_roles_are_kept_apart(role: &str, path: &str, r: bool)
    requires
        call_ensures(is_allowed, (role, path), r),
    ensures
        role@ == "admin"@ ==> r,
        path@ == "/"@ ==> r,
        role@ == "speaker"@ && path@ != "/"@ ==> r == "/receiver"@.is_prefix_of(path@),
        role@ == "mic"@ && path@ != "/"@ ==> r == "/sender"@.is_prefix_of(path@),
        role@ == "controller"@ && path@ != "/"@ ==> r == "/controller"@.is_prefix_of(path@),
        role@ != "speaker"@ && role@ != "mic"@ && role@ != "controller"@ && role@ != "admin"@
            && path@ != "/"@ ==> !r,
{
    lemma_roles_differ();
}

/// A page is granted to the user whom the store knows by the session, exactly where the
/// role may see it; without such a user, or where the store fails, the way leads to the
/// login page.
pub proof fn law_access_goes_by_the_role(
    path: &str,
    lookup: Result<Option<User>, DbError>,
    r: Access,
    redirect: Option<String>,
    refusal: Option<String>,
)
    requires
        call_ensures(require_role, (path, lookup), r),
        call_ensures(Access::redirect, (&r,), redirect),
        call_ensures(Access::refusal, (&r,), refusal),
    ensures
        !(lookup matches Ok(Some(_))) ==> r == Access::SignIn && refusal is None && (
        redirect matches Some(to) && to@ == "/login"@),
        lookup matches Ok(Some(user)) ==> {
            let role = user.role@;
            let may = role == "admin"@ || path@ == "/"@ || (role == "speaker"@
                && "/receiver"@.is_prefix_of(path@)) || (role == "mic"@ && "/sender"@.is_prefix_of(
                path@,
            )) || (role == "controller"@ && "/controller"@.is_prefix_of(path@));
            &&& redirect is None
            &&& may ==> r == Access::Granted(user) && refusal is None
            &&& !may ==> r == Access::Forbidden && (refusal matches Some(page) && page@
                == "<h1>403 Forbidden</h1><p>You do not have the required role to access this page.</p>"@)
        },
{
    lemma_roles_differ();
}

/// A login ends with the session that was stored and on the page of the user's role;
/// it fails exactly where the session could not be stored. Logging out leads to the
/// login page.
pub proof fn law_login_ends_with_the_session(
    user: &User,
    session: Result<String, DbError>,
    r: Result<Login, AuthError>,
    page: String,
    out: String,
)
    requires
        call_ensures(login_post, (user, session), r),
        call_ensures(logout, (), out),
    ensures
        out@ == "/login"@,
        session is Err ==> r == Err::<Login, AuthError>(AuthError::SessionFailed),
        session matches Ok(id) ==> (r matches Ok(login) && login.session_id@ == id@ && (
        user.role@ == "speaker"@ ==> login.redirect@ == "/receiver"@) && (user.role@ == "mic"@
            ==> login.redirect@ == "/sender"@) && (user.role@ == "controller"@ ==> login.redirect@
            == "/controller"@) && (user.role@ == "admin"@ ==> login.redirect@ == "/admin"@) && (
        user.role@ != "speaker"@ && user.role@ != "mic"@ && user.role@ != "controller"@
            && user.role@ != "admin"@ ==> login.redirect@ == "/"@)),
{
    lemma_roles_differ();
}

/// Each refusal has its own text, and a status that tells whose fault it is.
pub proof fn law_refusals_are_told(error: &AuthError, status: u16, message: String)
    requires
        call_ensures(AuthError::status, (error,), status),
        call_ensures(AuthError::message, (error,), message),
    ensures
        *error == AuthError::InvalidLogin ==> status == 401 && message@
            == "Invalid username or password"@,
        *error == AuthError::UsernameTaken ==> status == 400 && message@
            == "Username already exists"@,
        *error == AuthError::Database ==> status == 500 && message@ == "DB Error"@,
        *error == AuthError::SessionFailed ==> status == 500 && message@
            == "Session creation failed"@,
        *error == AuthError::CreateFailed ==> status == 500 && message@ == "Failed to create user"@,
        *error == AuthError::SettingsFailed ==> status == 500 && message@
            == "Failed to save settings"@,
{
}

/// What is shown of a user is the id, the name and the role; of a created one too, and
/// storing that fails is told.
pub proof fn law_users_are_shown(
    user: &User,
    r: UserResponse,
    stored: Result<User, DbError>,
    created: Result<UserResponse, AuthError>,
)
    requires
        call_ensures(show_user, (user,), r),
        call_ensures(create_user, (stored,), created),
    ensures
        r.id@ == user.id@,
        r.username@ == user.username@,
        r.role@ == user.role@,
        stored is Err ==> created == Err::<UserResponse, AuthError>(AuthError::CreateFailed),
        stored matches Ok(u) ==> (created matches Ok(answer) && answer.id@ == u.id@
            && answer.username@ == u.username@ && answer.role@ == u.role@),
{
}

/// All users are shown, each in its place, and nobody else; nobody where the store
/// fails.
pub proof fn law_all_users_are_shown(users: Result<Vec<User>, DbError>, r: Vec<UserResponse>)
    requires
        call_ensures(list_users, (users,), r),
    ensures
        users is Err ==> r@.len() == 0,
        users matches Ok(list) ==> r@.len() == list@.len() && forall|i: int|
            0 <= i < list@.len() ==> (#[trigger] r@[i]).id == list@[i].id && r@[i].username
                == list@[i].username && r@[i].role == list@[i].role,
{
}

/// All rows are read, each in its place, unless one could not be: then none is.
pub proof fn law_all_rows_are_read(
    rows: Vec<Result<User, DbError>>,
    r: Result<Vec<User>, DbError>,
)
    requires
        call_ensures(get_all_users, (rows,), r),
    ensures
        r is Err <==> exists|i: int| 0 <= i < rows@.len() && (#[trigger] rows@[i]) is Err,
        r matches Ok(users) ==> users@.len() == rows@.len() && forall|i: int|
            0 <= i < rows@.len() ==> #[trigger] rows@[i] == Ok::<User, DbError>(users@[i]),
{
    if r is Ok {
        assert forall|i: int| 0 <= i < rows@.len() implies #[trigger] rows@[i] == Ok::<
            User,
            DbError,
        >(r->Ok_0@[i]) by {
            assert(rows@[i] is Ok);
        }
    }
}

/// A row that was found is the answer, a missing one is no error, and a failure is.
pub proof fn law_missing_row_is_no_error(row: Row<User>, r: Result<Option<User>, DbError>)
    requires
        call_ensures(one_row::<User>, (row,), r),
    ensures
        row matches Row::Found(user) ==> r == Ok::<Option<User>, DbError>(Some(user)),
        row is NoRows ==> r == Ok::<Option<User>, DbError>(None),
        row is Failed ==> r is Err,
{
}

/// The same of a row that holds a text.
pub proof fn law_missing_text_is_no_error(row: Row<String>, r: Result<Option<String>, DbError>)
    requires
        call_ensures(one_row::<String>, (row,), r),
    ensures
        row matches Row::Found(text) ==> r == Ok::<Option<String>, DbError>(Some(text)),
        row is NoRows ==> r == Ok::<Option<String>, DbError>(None),
        row is Failed ==> r is Err,
{
}

/// A session that was made at a time is its user's up to a week later, and from then on
/// nobody's.
pub proof fn law_made_session_lasts_a_week(
    user_id: &str,
    start: i64,
    session: Session,
    now: i64,
    r: Result<Option<String>, DbError>,
)
    requires
        call_ensures(create_session, (user_id, start), session),
        call_ensures(session_owner, (Row::Found(session), now), r),
    ensures
        session.user_id@ == user_id@,
        is_random_uuid(session.id@) && drawn(session.id@),
        now < start + 604_800 ==> r == Ok::<Option<String>, DbError>(Some(session.user_id)),
        now >= start + 604_800 ==> r == Ok::<Option<String>, DbError>(None),
{
}

/// The owner of a session that is not there, or that could not be read.
pub proof fn law_missing_session_has_no_owner(
    row: Row<Session>,
    now: i64,
    r: Result<Option<String>, DbError>,
)
    requires
        call_ensures(session_owner, (row, now), r),
    ensures
        row is NoRows ==> r == Ok::<Option<String>, DbError>(None),
        row is Failed ==> r is Err,
        row matches Row::Found(session) ==> r == (if now < session.expires_at {
            Ok::<Option<String>, DbError>(Some(session.user_id))
        } else {
            Ok(None)
        }),
{
}

/// A session and a user are made of what they are given.
pub proof fn law_sessions_and_users_are_made_as_given(
    id: String,
    user_id: &str,
    now: i64,
    session: Session,
    username: &str,
    password_hash: &str,
    role: &str,
    user: User,
    fresh: User,
)
    requires
        call_ensures(session_from, (id, user_id, now), session),
        call_ensures(user_from, (id, username, password_hash, role), user),
        call_ensures(new_user, (username, password_hash, role), fresh),
    ensures
        session.id == id && session.user_id@ == user_id@ && session.expires_at == now + 604_800,
        user.id == id && user.username@ == username@ && user.password_hash@ == password_hash@
            && user.role@ == role@,
        drawn(fresh.id@) && fresh.username@ == username@ && fresh.password_hash@ == password_hash@
            && fresh.role@ == role@,
{
}

/// A store without users is to be given an account of each of four names, whose
/// password and role are its name; a store with users none.
pub proof fn law_first_accounts(count: i64, r: Vec<Account>)
    requires
        call_ensures(init_default_admin, (count,), r),
    ensures
        count != 0 ==> r@.len() == 0,
        count == 0 ==> r@.len() == 4 && r@[0].username@ == "admin"@ && r@[1].username@
            == "speaker"@ && r@[2].username@ == "mic"@ && r@[3].username@ == "controller"@,
        forall|i: int|
            0 <= i < r@.len() ==> (#[trigger] r@[i]).password@ == r@[i].username@ && r@[i].role@
                == r@[i].username@,
{
}

/// A store without users is to be given those of the four accounts, each with a hash
/// that its name opens, unless `bcrypt` failed on one of the names; a store with users
/// none.
pub proof fn law_first_users(count: i64, r: Result<Vec<User>, HashError>)
    requires
        call_ensures(default_users, (count,), r),
    ensures
        count != 0 ==> (r matches Ok(users) && users@.len() == 0),
        count == 0 ==> match r {
            Ok(users) => {
                &&& users@.len() == 4
                &&& users@[0].username@ == "admin"@
                &&& users@[1].username@ == "speaker"@
                &&& users@[2].username@ == "mic"@
                &&& users@[3].username@ == "controller"@
                &&& forall|i: int|
                    0 <= i < 4 ==> (#[trigger] users@[i]).role@ == users@[i].username@
                        && bcrypt_verdict(users@[i].username@, users@[i].password_hash@) == Some(
                        true,
                    ) && drawn(users@[i].id@)
            },
            Err(_) => exists|name: Seq<char>, outcome: Result<String, BcryptError>| #[trigger]
                bcrypt_gave(name, outcome) && outcome is Err && (name == "admin"@ || name
                    == "speaker"@ || name == "mic"@ || name == "controller"@),
        },
{
    let names = crate::accounts::default_names();
    assert(names.len() == 4);
    if r is Err {
        let (name, outcome) = choose|name: Seq<char>, outcome: Result<String, BcryptError>|
            #[trigger]
            bcrypt_gave(name, outcome) && outcome is Err && names.contains(name);
        let i = choose|i: int| 0 <= i < names.len() && names[i] == name;
        assert(bcrypt_gave(name, outcome));
        assert(i == 0 || i == 1 || i == 2 || i == 3);
    } else if count == 0 {
        assert forall|i: int| 0 <= i < 4 implies (#[trigger] r->Ok_0@[i]).role@
            == r->Ok_0@[i].username@ && bcrypt_verdict(
            r->Ok_0@[i].username@,
            r->Ok_0@[i].password_hash@,
        ) == Some(true) && drawn(r->Ok_0@[i].id@) by {
            assert(crate::accounts::is_default_user(r->Ok_0@[i], names[i]));
        }
    }
}

/// The user of an account has its name and role, the id and the hash that are given,
/// exactly where there is a hash.
pub proof fn law_account_becomes_a_user(
    account: &Account,
    id: String,
    hash: Result<String, HashError>,
    r: Result<User, HashError>,
)
    requires
        call_ensures(account_user, (account, id, hash), r),
    ensures
        hash is Err ==> r is Err,
        hash matches Ok(h) ==> (r matches Ok(user) && user.id == id && user.username@
            == account.username@ && user.role@ == account.role@ && user.password_hash@ == h@),
{
}

/// Settings are stored under the two keys that they are read under, the mode first; what
/// is read is what was stored, or the defaults.
pub proof fn law_settings_keep_their_keys(
    payload: &SettingsPayload,
    pairs: Vec<(String, String)>,
    first: String,
    second: String,
    mode: Result<Option<String>, DbError>,
    server_ip: Result<Option<String>, DbError>,
    r: SettingsPayload,
)
    requires
        call_ensures(update_settings, (payload,), pairs),
        call_ensures(mode_key, (), first),
        call_ensures(server_ip_key, (), second),
        call_ensures(get_settings, (mode, server_ip), r),
    ensures
        first@ == "streaming_mode"@,
        second@ == "server_ip"@,
        pairs@.len() == 2,
        pairs@[0].0@ == first@ && pairs@[0].1@ == payload.mode@,
        pairs@[1].0@ == second@ && pairs@[1].1@ == payload.server_ip@,
        r.mode@ == (match mode {
            Ok(Some(value)) => value@,
            _ => "lan"@,
        }),
        r.server_ip@ == (match server_ip {
            Ok(Some(value)) => value@,
            _ => ""@,
        }),
{
    let texts = crate::auth::pair_texts(pairs@);
    assert(texts.len() == 2);
    assert(texts[0] == (pairs@[0].0@, pairs@[0].1@));
    assert(texts[1] == (pairs@[1].0@, pairs@[1].1@));
}

/// Settings that were stored are the answer; that they could not be is told.
pub proof fn law_stored_settings_are_answered(
    stored: Result<(), DbError>,
    payload: SettingsPayload,
    r: Result<SettingsPayload, AuthError>,
)
    requires
        call_ensures(settings_stored, (stored, payload), r),
    ensures
        stored is Ok ==> r == Ok::<SettingsPayload, AuthError>(payload),
        stored is Err ==> r == Err::<SettingsPayload, AuthError>(AuthError::SettingsFailed),
{
}

/// The names of the roles are all different.
proof fn lemma_roles_differ()
    ensures
        "speaker"@ != "mic"@,
        "speaker"@ != "controller"@,
        "speaker"@ != "admin"@,
        "mic"@ != "controller"@,
        "mic"@ != "admin"@,
        "controller"@ != "admin"@,
{
    reveal_strlit("speaker");
    reveal_strlit("mic");
    reveal_strlit("controller");
    reveal_strlit("admin");
    assert("speaker"@.len() == 7 && "mic"@.len() == 3 && "controller"@.len() == 10);
    assert("admin"@.len() == 5);
}

} // verus!
