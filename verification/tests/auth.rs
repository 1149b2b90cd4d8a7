use airlink::accounts::{
    account_user, create_session, default_users, get_all_users, init_default_admin, new_user,
    one_row, session_from, session_owner, user_from, DbError, Row, Session, User,
};
use airlink::auth::{
    check_login, create_user, get_settings, is_allowed, judge_login, list_users, login_post,
    logout, mode_key, plan_user, require_role, server_ip_key, settings_stored, show_user,
    start_page, store_plan,
    update_settings, Access, AuthError, CreateUserPayload, LoginPayload, SettingsPayload, UserPlan,
};
use airlink::passwords::{hash_outcome, hash_password, verify_password, HashError};

fn user(name: &str, hash: &str, role: &str) -> User {
    User {
        id: format!("id-{}", name),
        username: name.to_string(),
        password_hash: hash.to_string(),
        role: role.to_string(),
    }
}

fn payload(name: &str, password: &str) -> LoginPayload {
    LoginPayload { username: name.to_string(), password: password.to_string() }
}

// A hash of the password "a", of version 2a at cost 6.
const HASH_OF_A: &str = "$2a$06$m0CrhHm10qJ3lXRY.5zDGO3rS2KdeeWLuGmsfGlMfOxih58VYVfxe";

#[test]
fn known_hash_opens_with_its_password_only() {
    assert!(verify_password("a", HASH_OF_A));
    assert!(!verify_password("b", HASH_OF_A));
    assert!(!verify_password("", HASH_OF_A));
    assert!(!verify_password("a", "no hash"));
    assert!(!verify_password(HASH_OF_A, HASH_OF_A));
}

#[test]
fn fresh_hash_opens_with_its_password() {
    let hash = hash_password("secret").unwrap();
    assert_eq!(hash.len(), 60);
    assert!(hash.starts_with("$2b$12$"));
    assert!(verify_password("secret", &hash));
}

#[test]
fn hashing_gives_the_hash_or_tells_that_the_salt_is_missing() {
    assert_eq!(hash_outcome(Ok(HASH_OF_A.to_string())), Ok(HASH_OF_A.to_string()));
    let failed = bcrypt::hash("a", 3);
    assert!(failed.is_err());
    assert_eq!(hash_outcome(failed), Err(HashError::NoSalt));
}

#[test]
fn login_with_the_right_password() {
    let found = Ok(Some(user("ann", HASH_OF_A, "mic")));
    let admitted = check_login(found, &payload("ann", "a")).unwrap();
    assert_eq!(admitted.username, "ann");
    let login = login_post(&admitted, Ok("sid".to_string())).unwrap();
    assert_eq!(login.session_id, "sid");
    assert_eq!(login.redirect, "/sender");
    assert_eq!(
        login_post(&admitted, Err(DbError::Failed)).unwrap_err(),
        AuthError::SessionFailed
    );
}

#[test]
fn login_is_refused_alike_for_wrong_passwords_and_unknown_names() {
    let wrong = check_login(Ok(Some(user("ann", HASH_OF_A, "mic"))), &payload("ann", "x"));
    let unknown = check_login(Ok(None), &payload("bob", "x"));
    let garbage = check_login(Ok(Some(user("ann", "garbage", "mic"))), &payload("ann", "x"));
    assert_eq!(wrong.unwrap_err(), AuthError::InvalidLogin);
    assert_eq!(unknown.unwrap_err(), AuthError::InvalidLogin);
    assert_eq!(garbage.unwrap_err(), AuthError::InvalidLogin);
    let failed = check_login(Err(DbError::Failed), &payload("ann", "a"));
    assert_eq!(failed.unwrap_err(), AuthError::Database);
    assert!(judge_login(user("ann", "", "mic"), true).is_ok());
    assert_eq!(judge_login(user("ann", "", "mic"), false).unwrap_err(), AuthError::InvalidLogin);
}

#[test]
fn errors_have_their_status_and_text() {
    for (error, status, message) in [
        (AuthError::Database, 500, "DB Error"),
        (AuthError::InvalidLogin, 401, "Invalid username or password"),
        (AuthError::SessionFailed, 500, "Session creation failed"),
        (AuthError::UsernameTaken, 400, "Username already exists"),
        (AuthError::CreateFailed, 500, "Failed to create user"),
        (AuthError::SettingsFailed, 500, "Failed to save settings"),
    ] {
        assert_eq!(error.status(), status);
        assert_eq!(error.message(), message);
    }
}

#[test]
fn roles_start_on_their_pages() {
    assert_eq!(start_page("speaker"), "/receiver");
    assert_eq!(start_page("mic"), "/sender");
    assert_eq!(start_page("controller"), "/controller");
    assert_eq!(start_page("admin"), "/admin");
    assert_eq!(start_page("guest"), "/");
    assert_eq!(start_page(""), "/");
    assert_eq!(logout(), "/login");
    for role in ["speaker", "mic", "controller", "admin", "guest"] {
        assert!(is_allowed(role, &start_page(role)));
    }
}

#[test]
fn roles_see_their_own_pages_only() {
    assert!(is_allowed("speaker", "/receiver"));
    assert!(is_allowed("speaker", "/receiver/x"));
    assert!(is_allowed("speaker", "/receiverx"));
    assert!(!is_allowed("speaker", "/sender"));
    assert!(!is_allowed("speaker", "/receive"));
    assert!(!is_allowed("mic", "/receiver"));
    assert!(is_allowed("controller", "/controller"));
    assert!(!is_allowed("controller", "/admin"));
    assert!(!is_allowed("controller", "/api/player/state"));
    assert!(is_allowed("guest", "/"));
    assert!(!is_allowed("guest", "//"));
    assert!(!is_allowed("guest", ""));
    for path in ["/", "/admin", "/admin/api/users", "/api/player/control", "/sender", "/x"] {
        assert!(is_allowed("admin", path));
    }
}

#[test]
fn pages_need_a_session_and_a_role() {
    assert!(matches!(require_role("/", Ok(None)), Access::SignIn));
    assert!(matches!(require_role("/", Err(DbError::Failed)), Access::SignIn));
    let mic = || user("ann", "", "mic");
    assert!(matches!(require_role("/admin", Ok(Some(mic()))), Access::Forbidden));
    let nobody = require_role("/", Ok(None));
    assert_eq!(nobody.redirect().as_deref(), Some("/login"));
    assert_eq!(nobody.refusal(), None);
    let speaker = require_role("/sender", Ok(Some(user("s", "h", "speaker"))));
    assert_eq!(speaker.redirect(), None);
    assert_eq!(
        speaker.refusal().as_deref(),
        Some("<h1>403 Forbidden</h1><p>You do not have the required role to access this page.</p>")
    );
    let granted = require_role("/sender", Ok(Some(mic())));
    assert_eq!(granted.redirect(), None);
    assert_eq!(granted.refusal(), None);
    match require_role("/sender", Ok(Some(mic()))) {
        Access::Granted(u) => assert_eq!(u.username, "ann"),
        other => panic!("{:?}", other),
    }
}

#[test]
fn users_are_listed_without_their_hashes() {
    let shown = list_users(Ok(vec![user("ann", "h1", "mic"), user("bob", "h2", "admin")]));
    assert_eq!(shown.len(), 2);
    assert_eq!(shown[0].id, "id-ann");
    assert_eq!(shown[0].username, "ann");
    assert_eq!(shown[0].role, "mic");
    assert_eq!(shown[1].username, "bob");
    assert!(!format!("{:?}", shown).contains("h1"));
    assert!(list_users(Err(DbError::Failed)).is_empty());
    assert_eq!(show_user(&user("cy", "h", "mic")).username, "cy");
}

#[test]
fn taken_names_are_refused() {
    let payload = CreateUserPayload {
        username: "ann".to_string(),
        password: "pw".to_string(),
        role: "mic".to_string(),
    };
    match plan_user(Ok(Some(user("ann", "", "mic"))), &payload) {
        UserPlan::Rejected(e) => assert_eq!(e, AuthError::UsernameTaken),
        other => panic!("{:?}", other),
    }
    assert!(matches!(
        store_plan(&payload, Err(HashError::NoSalt)),
        UserPlan::HashFailed(HashError::NoSalt)
    ));
    match store_plan(&payload, Ok("hash".to_string())) {
        UserPlan::Store(u) => {
            assert_eq!(u.id.len(), 36);
            assert_eq!(u.username, "ann");
            assert_eq!(u.password_hash, "hash");
            assert_eq!(u.role, "mic");
        }
        other => panic!("{:?}", other),
    }
}

#[test]
fn created_user_can_log_in() {
    let payload_new = CreateUserPayload {
        username: "ann".to_string(),
        password: "pw".to_string(),
        role: "speaker".to_string(),
    };
    let stored = match plan_user(Err(DbError::Failed), &payload_new) {
        UserPlan::Store(u) => u,
        other => panic!("{:?}", other),
    };
    let login = check_login(Ok(Some(stored)), &payload("ann", "pw")).unwrap();
    assert_eq!(login.role, "speaker");
}

#[test]
fn creation_is_answered_with_the_stored_user() {
    let answer = create_user(Ok(user("ann", "h", "mic"))).unwrap();
    assert_eq!(answer.id, "id-ann");
    assert_eq!(answer.username, "ann");
    assert_eq!(answer.role, "mic");
    assert_eq!(create_user(Err(DbError::Failed)).unwrap_err(), AuthError::CreateFailed);
}

#[test]
fn settings_have_defaults_and_come_back() {
    let s = get_settings(Ok(None), Err(DbError::Failed));
    assert_eq!(s.mode, "lan");
    assert_eq!(s.server_ip, "");
    let wanted = SettingsPayload { mode: "wan".to_string(), server_ip: "10.0.0.1".to_string() };
    let rows = update_settings(&wanted);
    assert_eq!(rows[0], ("streaming_mode".to_string(), "wan".to_string()));
    assert_eq!(rows[1], ("server_ip".to_string(), "10.0.0.1".to_string()));
    let stored = |key: String| Ok(rows.iter().rev().find(|r| r.0 == key).map(|r| r.1.clone()));
    let s = get_settings(stored(mode_key()), stored(server_ip_key()));
    assert_eq!(s.mode, "wan");
    assert_eq!(s.server_ip, "10.0.0.1");
    assert_eq!(settings_stored(Ok(()), s).unwrap().mode, "wan");
    assert_eq!(
        settings_stored(Err(DbError::Failed), wanted).unwrap_err(),
        AuthError::SettingsFailed
    );
}

#[test]
fn rows_are_read() {
    assert_eq!(one_row(Row::Found(7)), Ok(Some(7)));
    assert_eq!(one_row::<u8>(Row::NoRows), Ok(None));
    assert_eq!(one_row::<u8>(Row::Failed), Err(DbError::Failed));
    let all = get_all_users(vec![Ok(user("a", "", "mic")), Ok(user("b", "", "mic"))]).unwrap();
    assert_eq!(all.len(), 2);
    assert_eq!(all[1].username, "b");
    let broken = get_all_users(vec![
        Ok(user("a", "", "mic")),
        Err(DbError::Failed),
        Ok(user("b", "", "mic")),
    ]);
    assert_eq!(broken.unwrap_err(), DbError::Failed);
    assert!(get_all_users(vec![]).unwrap().is_empty());
}

#[test]
fn sessions_last_a_week() {
    let s = session_from("s1".to_string(), "u1", 1_000);
    assert_eq!(s.id, "s1");
    assert_eq!(s.user_id, "u1");
    assert_eq!(s.expires_at, 605_800);
    let row = || {
        Row::Found(Session { id: "s1".to_string(), user_id: "u1".to_string(), expires_at: 605_800 })
    };
    assert_eq!(session_owner(row(), 605_799), Ok(Some("u1".to_string())));
    assert_eq!(session_owner(row(), 605_800), Ok(None));
    assert_eq!(session_owner(Row::NoRows, 0), Ok(None));
    assert_eq!(session_owner(Row::Failed, 0), Err(DbError::Failed));
    let a = create_session("u1", 5);
    let b = create_session("u1", 5);
    assert_ne!(a.id, b.id);
    assert_eq!(a.expires_at, 604_805);
}

#[test]
fn empty_store_is_given_four_accounts() {
    let accounts = init_default_admin(0);
    let names: Vec<&str> = accounts.iter().map(|a| a.username.as_str()).collect();
    assert_eq!(names, vec!["admin", "speaker", "mic", "controller"]);
    for a in &accounts {
        assert_eq!(a.password, a.username);
        assert_eq!(a.role, a.username);
    }
    assert!(init_default_admin(1).is_empty());
    assert!(init_default_admin(-1).is_empty());
    let u = user_from("u1".to_string(), "ann", "h", "mic");
    assert_eq!((u.id.as_str(), u.username.as_str()), ("u1", "ann"));
    assert_eq!((u.password_hash.as_str(), u.role.as_str()), ("h", "mic"));
    let u = account_user(&accounts[1], "u2".to_string(), Ok("h".to_string())).unwrap();
    assert_eq!((u.id.as_str(), u.username.as_str()), ("u2", "speaker"));
    assert_eq!((u.password_hash.as_str(), u.role.as_str()), ("h", "speaker"));
    assert_eq!(
        account_user(&accounts[1], "u2".to_string(), Err(HashError::NoSalt)).unwrap_err(),
        HashError::NoSalt
    );
    let u = new_user("admin", "h", "admin");
    assert_eq!(u.id.len(), 36);
    assert_eq!(u.password_hash, "h");
}

#[test]
fn first_users_log_in_under_their_own_names() {
    let users = default_users(0).unwrap();
    let names: Vec<&str> = users.iter().map(|u| u.username.as_str()).collect();
    assert_eq!(names, vec!["admin", "speaker", "mic", "controller"]);
    for (i, u) in users.iter().enumerate() {
        assert_eq!(u.role, u.username);
        assert!(verify_password(&u.username, &u.password_hash));
        for other in &users[..i] {
            assert_ne!(u.id, other.id);
        }
    }
    assert!(default_users(4).unwrap().is_empty());
    assert!(default_users(1).unwrap().is_empty());
}

#[test]
fn list_and_lookup_agree() {
    let table = || vec![user("ann", "h1", "mic"), user("bob", "h2", "admin")];
    let listed = get_all_users(table().into_iter().map(Ok).collect()).unwrap();
    for name in ["ann", "bob", "cy"] {
        let row = match table().into_iter().find(|u| u.username == name) {
            Some(u) => Row::Found(u),
            None => Row::NoRows,
        };
        let found = one_row(row).unwrap();
        let in_list = listed.iter().find(|u| u.username == name);
        assert_eq!(found.as_ref().map(|u| &u.id), in_list.map(|u| &u.id));
        assert_eq!(found.as_ref().map(|u| &u.password_hash), in_list.map(|u| &u.password_hash));
    }
}
