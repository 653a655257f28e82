use vstd::prelude::*;
use crate::password::{admin_name, is_admin, password_matches, verify_password};
use crate::reply::{
    ContentKind, Reply, Status, status_page, updated_page, updated_text, render_status_page,
    render_updated_page, render_updated_text, LOGGED_IN_TEXT, LOGIN_REFUSED_TEXT,
    SET_STATE_FORM_PAGE, UNAUTHORIZED_PAGE, UNAUTHORIZED_TEXT,
};
use crate::state::{State, state_name};
use crate::store::{Access, StateStore, state_after};

verus! {

/// The result of a login: the reply, and the identity that the session is
/// to remember, if the login succeeded.
pub struct LoginOutcome {
    pub reply: Reply,
    pub remember: Option<String>,
}

/// The store's history after a change request that the password check
/// accepted or refused: a refused request leaves it as it was.
pub open spec fn history_after_change(history: Seq<Access>, requested: State, authorized: bool) -> Seq<Access> {
    if authorized {
        history.push(Access::Write(requested))
    } else {
        history
    }
}

/// The status that a change request gets.
pub open spec fn change_status(authorized: bool) -> Status {
    if authorized {
        Status::Success
    } else {
        Status::Unauthorized
    }
}

/// The identity that a login establishes: the administrator's name when the
/// user name is the administrator's and the password was accepted, else none.
pub open spec fn login_identity(username: Seq<char>, password_ok: bool) -> Option<Seq<char>> {
    if username == admin_name() && password_ok {
        Some(username)
    } else {
        None
    }
}

/// The HTML status page of the current state.
pub fn get_state(store: &StateStore) -> (r: Reply)
    requires
        store.wf(),
    ensures
        r.status == Status::Success,
        r.content == ContentKind::Html,
        r.body@ == status_page(store@),
{
    let current = store.read();
    Reply { status: Status::Success, content: ContentKind::Html, body: render_status_page(current) }
}

/// The current state's name as plain text.
pub fn get_state_text(store: &StateStore) -> (r: Reply)
    requires
        store.wf(),
    ensures
        r.status == Status::Success,
        r.content == ContentKind::PlainText,
        r.body@ == state_name(store@),
{
    let current = store.read();
    Reply { status: Status::Success, content: ContentKind::PlainText, body: current.name() }
}

/// The form that posts a state and a password to the change endpoint.
pub fn get_set_state_form() -> (r: Reply)
    ensures
        r.status == Status::Success,
        r.content == ContentKind::Html,
        r.body@ == SET_STATE_FORM_PAGE@,
{
    Reply { status: Status::Success, content: ContentKind::Html, body: String::from_str(SET_STATE_FORM_PAGE) }
}

/// Carries out a change request whose password has been checked: when it
/// was accepted the store takes the requested state and the reply confirms
/// it; otherwise the store is left alone and the reply is unauthorized.
pub fn apply_state_change(store: &mut StateStore, requested: State, password_ok: bool) -> (r: Reply)
    requires
        old(store).wf(),
    ensures
        final(store).wf(),
        final(store).history() == history_after_change(old(store).history(), requested, password_ok),
        final(store)@ == (if password_ok { requested } else { old(store)@ }),
        r.status == change_status(password_ok),
        r.content == ContentKind::Html,
        r.body@ == (if password_ok { updated_page(requested) } else { UNAUTHORIZED_PAGE@ }),
{
    if password_ok {
        store.write(requested);
        Reply { status: Status::Success, content: ContentKind::Html, body: render_updated_page(requested) }
    } else {
        Reply { status: Status::Unauthorized, content: ContentKind::Html, body: String::from_str(UNAUTHORIZED_PAGE) }
    }
}

/// A change request from the form, which carries the password inline: the
/// password is checked against the stored hash, then the change is made or
/// refused.
pub fn set_state(store: &mut StateStore, requested: State, password: &str, stored_hash: &str) -> (r: Reply)
    requires
        old(store).wf(),
    ensures
        final(store).wf(),
        final(store).history() == history_after_change(
            old(store).history(),
            requested,
            password_matches(password@, stored_hash@),
        ),
        r.status == change_status(password_matches(password@, stored_hash@)),
        r.content == ContentKind::Html,
        r.body@ == (if password_matches(password@, stored_hash@) {
            updated_page(requested)
        } else {
            UNAUTHORIZED_PAGE@
        }),
{
    let password_ok = verify_password(password, stored_hash);
    apply_state_change(store, requested, password_ok)
}

/// A change request from a session: it is made when the session carries an
/// identity from an earlier login, and refused otherwise.
pub fn set_state_for_session(store: &mut StateStore, identity: &Option<String>, requested: State) -> (r: Reply)
    requires
        old(store).wf(),
    ensures
        final(store).wf(),
        final(store).history() == history_after_change(old(store).history(), requested, identity is Some),
        final(store)@ == (if identity is Some { requested } else { old(store)@ }),
        r.status == change_status(identity is Some),
        r.content == ContentKind::PlainText,
        r.body@ == (if identity is Some { updated_text(requested) } else { UNAUTHORIZED_TEXT@ }),
{
    match identity {
        Some(_) => {
            store.write(requested);
            Reply { status: Status::Success, content: ContentKind::PlainText, body: render_updated_text(requested) }
        },
        None => {
            Reply { status: Status::Unauthorized, content: ContentKind::PlainText, body: String::from_str(UNAUTHORIZED_TEXT) }
        },
    }
}

/// Decides a login whose password has been checked: the administrator with
/// an accepted password is logged in and remembered; anyone else is refused.
pub fn login_decision(username: &str, password_ok: bool) -> (r: LoginOutcome)
    ensures
        match login_identity(username@, password_ok) {
            Some(name) => r.remember matches Some(s) && s@ == name,
            None => r.remember is None,
        },
        r.reply.status == change_status(login_identity(username@, password_ok) is Some),
        r.reply.content == ContentKind::PlainText,
        r.reply.body@ == (if login_identity(username@, password_ok) is Some {
            LOGGED_IN_TEXT@
        } else {
            LOGIN_REFUSED_TEXT@
        }),
{
    if is_admin(username) && password_ok {
        LoginOutcome {
            reply: Reply { status: Status::Success, content: ContentKind::PlainText, body: String::from_str(LOGGED_IN_TEXT) },
            remember: Some(String::from_str(username)),
        }
    } else {
        LoginOutcome {
            reply: Reply { status: Status::Unauthorized, content: ContentKind::PlainText, body: String::from_str(LOGIN_REFUSED_TEXT) },
            remember: None,
        }
    }
}

/// A login with a user name and a password: the password is checked
/// against the stored hash only when the user name is the administrator's.
pub fn login(username: &str, password: &str, stored_hash: &str) -> (r: LoginOutcome)
    ensures
        match login_identity(username@, password_matches(password@, stored_hash@)) {
            Some(name) => r.remember matches Some(s) && s@ == name,
            None => r.remember is None,
        },
        r.reply.status == change_status(
            login_identity(username@, password_matches(password@, stored_hash@)) is Some,
        ),
        r.reply.content == ContentKind::PlainText,
        r.reply.body@ == (if login_identity(username@, password_matches(password@, stored_hash@)) is Some {
            LOGGED_IN_TEXT@
        } else {
            LOGIN_REFUSED_TEXT@
        }),
{
    if is_admin(username) {
        let password_ok = verify_password(password, stored_hash);
        login_decision(username, password_ok)
    } else {
        login_decision(username, false)
    }
}

/// A change request whose password matches the stored hash succeeds, and a
/// read right after it observes the requested state; one whose password
/// does not match is unauthorized, and a read after it observes what it
/// observed before.
pub proof fn password_change_then_read(
    history: Seq<Access>,
    requested: State,
    password: Seq<char>,
    stored_hash: Seq<char>,
)
    ensures
        password_matches(password, stored_hash) ==> change_status(password_matches(password, stored_hash))
            == Status::Success && state_after(
            history_after_change(history, requested, password_matches(password, stored_hash)),
        ) == requested,
        !password_matches(password, stored_hash) ==> change_status(
            password_matches(password, stored_hash),
        ) == Status::Unauthorized && state_after(
            history_after_change(history, requested, password_matches(password, stored_hash)),
        ) == state_after(history),
{
    assert(history.push(Access::Write(requested)).drop_last() =~= history);
}

/// A login establishes an identity exactly when the user name is `admin`
/// and the password matches the stored hash. A session that carries that
/// identity has its change requests made; without it they are refused and
/// the store is left as it was.
pub proof fn login_gives_usable_session(
    history: Seq<Access>,
    requested: State,
    username: Seq<char>,
    password: Seq<char>,
    stored_hash: Seq<char>,
)
    ensures
        login_identity(username, password_matches(password, stored_hash)) is Some <==> (username
            == admin_name() && password_matches(password, stored_hash)),
        login_identity(username, password_matches(password, stored_hash)) is Some ==> change_status(
            login_identity(username, password_matches(password, stored_hash)) is Some,
        ) == Status::Success && state_after(
            history_after_change(
                history,
                requested,
                login_identity(username, password_matches(password, stored_hash)) is Some,
            ),
        ) == requested,
        login_identity(username, password_matches(password, stored_hash)) is None ==> change_status(
            login_identity(username, password_matches(password, stored_hash)) is Some,
        ) == Status::Unauthorized && history_after_change(
            history,
            requested,
            login_identity(username, password_matches(password, stored_hash)) is Some,
        ) == history,
{
    assert(history.push(Access::Write(requested)).drop_last() =~= history);
}

} // verus!
