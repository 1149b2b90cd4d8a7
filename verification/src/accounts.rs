//! Users and their sessions: what is kept of them, and what is read back.

use crate::ids::{draw, drawn, is_random_uuid};
use crate::passwords::{bcrypt_gave, hash_password, is_hash, opens, HashError};
use bcrypt::BcryptError;
use vstd::prelude::*;

verus! {

/// How long a session lasts, in seconds: a week.
pub const SESSION_SECONDS: i64 = 604_800;

/// A user of the hub.
#[derive(Debug)]
pub struct User {
    pub id: String,
    pub username: String,
    pub password_hash: String,
    pub role: String,
}

/// A session of a user.
#[derive(Debug)]
pub struct Session {
    pub id: String,
    pub user_id: String,
    /// The end of the session, in seconds since 1970.
    pub expires_at: i64,
}

/// A user that the hub starts with, before its password is hashed.
#[derive(Debug)]
pub struct Account {
    pub username: String,
    pub password: String,
    pub role: String,
}

/// The store did not answer a query.
#[derive(Clone, Copy, Debug, PartialEq, Eq, Structural)]
pub enum DbError {
    Failed,
}

/// What the store answers to a query for one row.
#[derive(Debug)]
pub enum Row<T> {
    Found(T),
    NoRows,
    Failed,
}

/// One of the accounts that the hub starts with: name, password and role are the same.
pub open spec fn is_account(account: Account, name: Seq<char>) -> bool {
    account.username@ == name && account.password@ == name && account.role@ == name
}

/// One of the users that the hub starts with: name and role are the same, and the hash
/// is one that the name, as the password, belongs to.
pub open spec fn is_default_user(user: User, name: Seq<char>) -> bool {
    &&& is_random_uuid(user.id@)
    &&& drawn(user.id@)
    &&& user.username@ == name
    &&& user.role@ == name
    &&& is_hash(user.password_hash@)
    &&& opens(name, user.password_hash@)
}

/// The names of the users that the hub starts with.
pub open spec fn default_names() -> Seq<Seq<char>> {
    seq!["admin"@, "speaker"@, "mic"@, "controller"@]
}

/// The users that a store with this many users is given: where it has none, one of
/// each name; else none.
pub open spec fn are_first_users(count: int, users: Seq<User>) -> bool {
    if count == 0 {
        users.len() == default_names().len() && forall|i: int|
            0 <= i < users.len() ==> is_default_user(#[trigger] users[i], default_names()[i])
    } else {
        users.len() == 0
    }
}

/// When a session that starts at a time ends.
pub open spec fn session_end(now: int) -> int {
    now + SESSION_SECONDS
}

/// Whose session a row holds at a time: nobody's where it is missing or has ended.
pub open spec fn owner_at(row: Row<Session>, now: i64) -> Result<Option<String>, DbError> {
    match row {
        Row::Found(session) => if session.expires_at > now {
            Ok(Some(session.user_id))
        } else {
            Ok(None)
        },
        Row::NoRows => Ok(None),
        Row::Failed => Err(DbError::Failed),
    }
}

/// What a query for one row finds: the row may be missing, which is no error.
pub open spec fn row_found<T>(row: Row<T>) -> Result<Option<T>, DbError> {
    match row {
        Row::Found(value) => Ok(Some(value)),
        Row::NoRows => Ok(None),
        Row::Failed => Err(DbError::Failed),
    }
}

/// What a query for all users finds: every user, unless the store failed at one.
pub open spec fn users_found(rows: Seq<Result<User, DbError>>) -> Result<Seq<User>, DbError> {
    if forall|i: int| 0 <= i < rows.len() ==> (#[trigger] rows[i]) is Ok {
        Ok(rows.map_values(|row: Result<User, DbError>| row->Ok_0))
    } else {
        Err(DbError::Failed)
    }
}

/// The row of a table of users under a name.
pub open spec fn row_named(table: Seq<User>, name: Seq<char>) -> Row<User> {
    if exists|i: int| 0 <= i < table.len() && (#[trigger] table[i]).username@ == name {
        Row::Found(
            table[choose|i: int| 0 <= i < table.len() && (#[trigger] table[i]).username@ == name],
        )
    } else {
        Row::NoRows
    }
}

/// No two users of a table have the same name.
pub open spec fn names_differ(table: Seq<User>) -> bool {
    forall|i: int, j: int|
        0 <= i < j < table.len() ==> (#[trigger] table[i]).username@ != (
        #[trigger] table[j]).username@
}

/// The answer to a query for one row: it may be missing, which is no error.
pub fn one_row<T>(row: Row<T>) -> (r: Result<Option<T>, DbError>)
    ensures
        r == row_found(row),
{
    match row {
        Row::Found(value) => Ok(Some(value)),
        Row::NoRows => Ok(None),
        Row::Failed => Err(DbError::Failed),
    }
}

/// The user whose session it is, where the session is there and has not ended.
pub fn session_owner(row: Row<Session>, now: i64) -> (r: Result<Option<String>, DbError>)
    ensures
        r == owner_at(row, now),
{
    match row {
        Row::Found(session) => {
            if session.expires_at > now {
                Ok(Some(session.user_id))
            } else {
                Ok(None)
            }
        },
        Row::NoRows => Ok(None),
        Row::Failed => Err(DbError::Failed),
    }
}

/// A session of a user that starts at a time, under an identifier of its own.
pub fn session_from(id: String, user_id: &str, now: i64) -> (r: Session)
    requires
        now + SESSION_SECONDS <= i64::MAX,
    ensures
        r.id == id,
        r.user_id@ == user_id@,
        r.expires_at == session_end(now as int),
{
    Session { id, user_id: user_id.to_owned(), expires_at: now + SESSION_SECONDS }
}

/// A session of a user that starts at a time, under a fresh identifier.
pub fn create_session(user_id: &str, now: i64) -> (r: Session)
    requires
        now + SESSION_SECONDS <= i64::MAX,
    ensures
        is_random_uuid(r.id@),
        drawn(r.id@),
        r.user_id@ == user_id@,
        r.expires_at == session_end(now as int),
{
    session_from(draw(), user_id, now)
}

/// A user with a password hash and a role, under an identifier of its own.
pub fn user_from(id: String, username: &str, password_hash: &str, role: &str) -> (r: User)
    ensures
        r.id == id,
        r.username@ == username@,
        r.password_hash@ == password_hash@,
        r.role@ == role@,
{
    User {
        id,
        username: username.to_owned(),
        password_hash: password_hash.to_owned(),
        role: role.to_owned(),
    }
}

/// A user with a password hash and a role, under a fresh identifier.
pub fn new_user(username: &str, password_hash: &str, role: &str) -> (r: User)
    ensures
        is_random_uuid(r.id@),
        drawn(r.id@),
        r.username@ == username@,
        r.password_hash@ == password_hash@,
        r.role@ == role@,
{
    user_from(draw(), username, password_hash, role)
}

/// All users that the store gives back, unless it fails at one of them.
pub fn get_all_users(rows: Vec<Result<User, DbError>>) -> (r: Result<Vec<User>, DbError>)
    ensures
        (match r {
            Ok(users) => Ok(users@),
            Err(e) => Err(e),
        }) == users_found(rows@),
{
    let mut users: Vec<User> = Vec::new();
    for row in it: rows
        invariant
            it.seq() == rows@,
            users@.len() == it.index(),
            forall|i: int|
                0 <= i < users@.len() ==> rows@[i] == Ok::<User, DbError>(#[trigger] users@[i]),
    {
        match row {
            Ok(user) => {
                users.push(user);
            },
            Err(e) => {
                assert(!(rows@[it.index() as int] is Ok));
                return Err(e);
            },
        }
    }
    assert forall|i: int| 0 <= i < rows@.len() implies (#[trigger] rows@[i]) is Ok by {
        assert(rows@[i] == Ok::<User, DbError>(users@[i]));
    }
    assert(users@ =~= rows@.map_values(|row: Result<User, DbError>| row->Ok_0));
    Ok(users)
}

/// The account of a name, a password and a role that are all the same.
fn account(name: &str) -> (r: Account)
    ensures
        is_account(r, name@),
{
    Account { username: name.to_owned(), password: name.to_owned(), role: name.to_owned() }
}

/// The accounts that a store with this many users is to be given: four, one for each
/// role, where it has none; else none.
pub fn init_default_admin(count: i64) -> (r: Vec<Account>)
    ensures
        count != 0 ==> r@.len() == 0,
        count == 0 ==> {
            &&& r@.len() == 4
            &&& is_account(r@[0], "admin"@)
            &&& is_account(r@[1], "speaker"@)
            &&& is_account(r@[2], "mic"@)
            &&& is_account(r@[3], "controller"@)
        },
{
    let mut r: Vec<Account> = Vec::new();
    if count == 0 {
        r.push(account("admin"));
        r.push(account("speaker"));
        r.push(account("mic"));
        r.push(account("controller"));
    }
    r
}

/// The user of an account, under an identifier of its own, given what hashing its
/// password gave.
pub fn account_user(account: &Account, id: String, hash: Result<String, HashError>) -> (r: Result<
    User,
    HashError,
>)
    ensures
        r is Ok <==> hash is Ok,
        r matches Ok(user) ==> {
            &&& user.id == id
            &&& user.username@ == account.username@
            &&& user.password_hash@ == hash->Ok_0@
            &&& user.role@ == account.role@
        },
        r matches Err(e) ==> hash == Err::<String, HashError>(e),
{
    match hash {
        Ok(h) => Ok(
            user_from(id, account.username.as_str(), h.as_str(), account.role.as_str()),
        ),
        Err(e) => Err(e),
    }
}

/// The users that a store with this many users is to be given: four, one for each role,
/// where it has none; else none. Hashing the passwords of the four may fail.
pub fn default_users(count: i64) -> (r: Result<Vec<User>, HashError>)
    ensures
        count != 0 ==> r is Ok,
        r matches Ok(users) ==> are_first_users(count as int, users@),
        r is Err ==> exists|name: Seq<char>, outcome: Result<String, BcryptError>| #[trigger]
            bcrypt_gave(name, outcome) && outcome is Err && default_names().contains(name),
{
    let accounts: Vec<Account> = init_default_admin(count);
    let mut users: Vec<User> = Vec::new();
    let mut i: usize = 0;
    while i < accounts.len()
        invariant
            i <= accounts@.len(),
            users@.len() == i,
            accounts@.len() == (if count == 0 {
                default_names().len()
            } else {
                0
            }),
            forall|k: int|
                0 <= k < accounts@.len() ==> is_account(
                    #[trigger] accounts@[k],
                    default_names()[k],
                ),
            forall|k: int|
                0 <= k < i ==> is_default_user(#[trigger] users@[k], default_names()[k]),
        decreases accounts@.len() - i,
    {
        let hash: Result<String, HashError> = hash_password(accounts[i].password.as_str());
        assert(default_names().contains(default_names()[i as int]));
        match account_user(&accounts[i], draw(), hash) {
            Ok(user) => {
                users.push(user);
            },
            Err(e) => {
                return Err(e);
            },
        }
        i += 1;
    }
    Ok(users)
}

/// A session is its user's for exactly a week from its start, and nobody's after.
pub proof fn law_session_lasts_a_week(session: Session, start: i64, now: i64)
    requires
        session.expires_at == session_end(start as int),
    ensures
        owner_at(Row::Found(session), now) == (if now < start + 7 * 24 * 60 * 60 {
            Ok::<Option<String>, DbError>(Some(session.user_id))
        } else {
            Ok(None)
        }),
{
}

/// An empty store is given one user for each role, no name twice, the administrator
/// among them; a store that has users is given none, so that a second time changes
/// nothing.
pub proof fn law_first_users_are_given_once(
    table: Seq<User>,
    first: Seq<User>,
    second: Seq<User>,
)
    requires
        are_first_users(table.len() as int, first),
        are_first_users((table + first).len() as int, second),
    ensures
        table.len() > 0 ==> table + first == table,
        table.len() == 0 ==> first.len() == 4 && names_differ(first) && first[0].role@ == "admin"@,
        table + first + second == table + first,
{
    reveal_strlit("admin");
    reveal_strlit("speaker");
    reveal_strlit("mic");
    reveal_strlit("controller");
    assert("admin"@.len() == 5 && "speaker"@.len() == 7 && "mic"@.len() == 3
        && "controller"@.len() == 10);
    assert(table.len() > 0 ==> table + first =~= table);
    assert(table + first + second =~= table + first);
    if table.len() == 0 {
        assert forall|i: int, j: int| 0 <= i < j < first.len() implies (
        #[trigger] first[i]).username@ != (#[trigger] first[j]).username@ by {
            assert(default_names()[i].len() != default_names()[j].len());
        }
    }
}

/// The list of all users and the lookup by name agree: in a table in which no name
/// occurs twice, the list holds a user of a name exactly where the lookup finds that
/// user, and the lookup finds nobody exactly where the list holds nobody of that name.
/// The list holds every user of the table, once and in its place.
pub proof fn law_list_and_lookup_agree(
    table: Seq<User>,
    rows: Seq<Result<User, DbError>>,
    name: Seq<char>,
    user: User,
)
    requires
        names_differ(table),
        rows == table.map_values(|u: User| Ok::<User, DbError>(u)),
    ensures
        users_found(rows) == Ok::<Seq<User>, DbError>(table),
        table.contains(user) && user.username@ == name <==> row_found(row_named(table, name))
            == Ok::<Option<User>, DbError>(Some(user)),
        row_found(row_named(table, name)) == Ok::<Option<User>, DbError>(None) <==> (forall|u: User|
            #[trigger] table.contains(u) ==> u.username@ != name),
{
    assert forall|i: int| 0 <= i < rows.len() implies (#[trigger] rows[i]) is Ok by {
        assert(rows[i] == Ok::<User, DbError>(table[i]));
    }
    assert(rows.map_values(|row: Result<User, DbError>| row->Ok_0) =~= table);
    if exists|i: int| 0 <= i < table.len() && (#[trigger] table[i]).username@ == name {
        let at = choose|i: int| 0 <= i < table.len() && (#[trigger] table[i]).username@ == name;
        assert(table.contains(table[at]));
        if table.contains(user) && user.username@ == name {
            let j = choose|j: int| 0 <= j < table.len() && table[j] == user;
            assert(j == at);
        }
    } else {
        assert forall|u: User| #[trigger] table.contains(u) implies u.username@ != name by {
            let j = choose|j: int| 0 <= j < table.len() && table[j] == u;
            assert(table[j].username@ != name);
        }
    }
}

} // verus!
