//! What holds of logging in and of roles.

use crate::accounts::{is_default_user, DbError, User};
use crate::auth::{
    home_page, is_created, login_outcome, may_see, setting_or, settings_pairs, shown, stored_under,
    AuthError, CreateUserPayload,
};
use crate::passwords::opens;
use vstd::prelude::*;

verus! {

/// A user who was created on a request can log in with the password of that request,
/// and may see the page that the login leads to.
pub proof fn law_created_user_can_log_in(user: User, payload: CreateUserPayload)
    requires
        is_created(user, payload),
    ensures
        login_outcome(Ok(Some(user)), payload.password@) == Ok::<User, AuthError>(user),
        may_see(payload.role@, home_page(user.role@)),
{
    law_home_page_is_open(user.role@);
}

/// Each user that the hub starts with can log in under its own name as the password,
/// and may see the page that it then starts on.
pub proof fn law_first_users_can_log_in(user: User, name: Seq<char>)
    requires
        is_default_user(user, name),
    ensures
        login_outcome(Ok(Some(user)), name) == Ok::<User, AuthError>(user),
        may_see(user.role@, home_page(user.role@)),
{
    law_home_page_is_open(user.role@);
}

/// A wrong password is answered like an unknown name: the answer does not tell which
/// names exist.
pub proof fn law_refusal_tells_nothing(user: User, password: Seq<char>)
    requires
        !opens(password, user.password_hash@),
    ensures
        login_outcome(Ok(Some(user)), password) == login_outcome(Ok(None), password),
{
}

/// Nobody logs in whom the store does not know, and nobody with a password that does
/// not belong to the stored hash.
pub proof fn law_only_the_password_opens(
    lookup: Result<Option<User>, DbError>,
    password: Seq<char>,
)
    requires
        login_outcome(lookup, password) is Ok,
    ensures
        lookup matches Ok(Some(user)) && opens(password, user.password_hash@)
            && login_outcome(lookup, password) == Ok::<User, AuthError>(user),
{
}

/// Every role may see the page that it starts on after logging in.
pub proof fn law_home_page_is_open(role: Seq<char>)
    ensures
        may_see(role, home_page(role)),
{
    assert("/receiver"@.is_prefix_of("/receiver"@));
    assert("/sender"@.is_prefix_of("/sender"@));
    assert("/controller"@.is_prefix_of("/controller"@));
}

/// The front page is open to every role, and an administrator may see every page.
pub proof fn law_front_page_is_open(role: Seq<char>, path: Seq<char>)
    ensures
        may_see(role, "/"@),
        may_see("admin"@, path),
{
}

/// A text has the characters of its prefixes.
proof fn lemma_prefix_at(s: Seq<char>, prefix: Seq<char>, i: int)
    requires
        0 <= i < prefix.len(),
    ensures
        prefix.is_prefix_of(s) ==> i < s.len() && s[i] == prefix[i],
{
    if prefix.is_prefix_of(s) {
        assert(s.subrange(0, prefix.len() as int)[i] == s[i]);
    }
}

/// Only an administrator may see the pages for administration or steer the player.
pub proof fn law_admin_pages_are_closed(role: Seq<char>, path: Seq<char>)
    requires
        "/admin"@.is_prefix_of(path) || "/api/player"@.is_prefix_of(path),
        may_see(role, path),
    ensures
        role == "admin"@,
{
    reveal_strlit("/admin");
    reveal_strlit("/api/player");
    reveal_strlit("/receiver");
    reveal_strlit("/sender");
    reveal_strlit("/controller");
    reveal_strlit("/");
    assert("/admin"@[1] == 'a' && "/api/player"@[1] == 'a');
    assert("/receiver"@[1] == 'r' && "/sender"@[1] == 's' && "/controller"@[1] == 'c');
    lemma_prefix_at(path, "/admin"@, 1);
    lemma_prefix_at(path, "/api/player"@, 1);
    lemma_prefix_at(path, "/receiver"@, 1);
    lemma_prefix_at(path, "/sender"@, 1);
    lemma_prefix_at(path, "/controller"@, 1);
}

/// A role other than that of the administrator sees only its own pages and the front
/// page.
pub proof fn law_roles_see_their_own_pages(role: Seq<char>, path: Seq<char>)
    requires
        may_see(role, path),
        role != "admin"@,
        path != "/"@,
    ensures
        home_page(role).is_prefix_of(path),
        role == "speaker"@ || role == "mic"@ || role == "controller"@,
{
    reveal_strlit("speaker");
    reveal_strlit("mic");
    reveal_strlit("controller");
    assert("speaker"@.len() == 7 && "mic"@.len() == 3 && "controller"@.len() == 10);
}

/// What is shown of a user does not depend on the password.
pub proof fn law_hashes_are_not_shown(user: User, password_hash: String)
    ensures
        shown(User { password_hash, ..user }) == shown(user),
{
}

/// Settings that were stored are read back as they were, whatever was stored before:
/// looked up under their keys, they are the settings that were asked for.
pub proof fn law_stored_settings_come_back(
    before: Seq<(Seq<char>, Seq<char>)>,
    mode: Seq<char>,
    server_ip: Seq<char>,
)
    ensures
        ({
            let stored = before + settings_pairs(mode, server_ip);
            &&& setting_or(stored_under(stored, "streaming_mode"@), "lan"@) == mode
            &&& setting_or(stored_under(stored, "server_ip"@), ""@) == server_ip
        }),
{
    reveal_strlit("streaming_mode");
    reveal_strlit("server_ip");
    assert("streaming_mode"@.len() != "server_ip"@.len());
    let stored = before + settings_pairs(mode, server_ip);
    assert(stored.last() == ("server_ip"@, server_ip));
    assert(stored.drop_last().last() == ("streaming_mode"@, mode));
    reveal_with_fuel(stored_under, 3);
}

} // verus!
