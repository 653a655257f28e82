use state_switch::password::{is_admin, verify_password};
use state_switch::reply::{ContentKind, Status};
use state_switch::service::{
    apply_state_change, get_set_state_form, get_state, get_state_text, login, login_decision,
    set_state, set_state_for_session,
};
use state_switch::state::State;
use state_switch::store::StateStore;

fn hash_of(password: &str) -> String {
    bcrypt::hash(password, 4).unwrap()
}

#[test]
fn new_store_holds_inactive() {
    let store = StateStore::new();
    for _ in 0..5 {
        assert_eq!(store.read(), State::Inactive);
    }
}

#[test]
fn write_then_read_returns_written() {
    let mut store = StateStore::new();
    store.write(State::Active);
    assert_eq!(store.read(), State::Active);
    store.write(State::Inactive);
    assert_eq!(store.read(), State::Inactive);
    store.write(State::Inactive);
    assert_eq!(store.read(), State::Inactive);
}

#[test]
fn interleaved_reads_see_last_write() {
    let mut store = StateStore::new();
    let writes = [State::Active, State::Active, State::Inactive, State::Active];
    for w in writes.iter() {
        store.write(*w);
        assert_eq!(store.read(), *w);
        assert_eq!(store.read(), *w);
    }
}

#[test]
fn state_names_and_colors() {
    assert_eq!(State::Active.name(), "Active");
    assert_eq!(State::Inactive.name(), "Inactive");
    assert_eq!(State::Active.color(), "lightgreen");
    assert_eq!(State::Inactive.color(), "coral");
}

#[test]
fn status_codes() {
    assert_eq!(Status::Success.code(), 200);
    assert_eq!(Status::Unauthorized.code(), 401);
}

#[test]
fn verify_accepts_hash_of_same_password() {
    let h = hash_of("hunter2");
    assert!(verify_password("hunter2", &h));
}

#[test]
fn verify_rejects_hash_of_other_password() {
    let h = hash_of("hunter2");
    assert!(!verify_password("hunter3", &h));
    assert!(!verify_password("", &h));
}

#[test]
fn verify_treats_malformed_hash_as_failure() {
    assert!(!verify_password("hunter2", "not a hash"));
    assert!(!verify_password("hunter2", ""));
    assert!(!verify_password("hunter2", "$2y$04$tooshort"));
}

#[test]
fn admin_name_is_exact() {
    assert!(is_admin("admin"));
    assert!(!is_admin("Admin"));
    assert!(!is_admin("admin "));
    assert!(!is_admin(""));
}

#[test]
fn status_page_follows_state() {
    let mut store = StateStore::new();
    let r = get_state(&store);
    assert_eq!(r.status, Status::Success);
    assert_eq!(r.content, ContentKind::Html);
    assert!(r.body.contains("background-color: coral;"));
    assert!(r.body.contains("<h1>Current State: Inactive</h1>"));
    assert!(r.body.starts_with("<html>\n            <head>"));
    assert!(r.body.contains("body {\n                        font-family: 'Arial', sans-serif;"));
    store.write(State::Active);
    let r = get_state(&store);
    assert!(r.body.contains("background-color: lightgreen;"));
    assert!(r.body.contains("<h1>Current State: Active</h1>"));
    assert!(r.body.ends_with("</body>\n        </html>"));
}

#[test]
fn state_text_is_the_name() {
    let mut store = StateStore::new();
    let r = get_state_text(&store);
    assert_eq!(r.status, Status::Success);
    assert_eq!(r.content, ContentKind::PlainText);
    assert_eq!(r.body, "Inactive");
    store.write(State::Active);
    assert_eq!(get_state_text(&store).body, "Active");
}

#[test]
fn form_page_posts_state_and_password() {
    let r = get_set_state_form();
    assert_eq!(r.status, Status::Success);
    assert_eq!(r.content, ContentKind::Html);
    assert!(r.body.contains("<form action='/set_state' method='post'>"));
    assert!(r.body.contains("<option value='Active'>Active</option>"));
    assert!(r.body.contains("<input type='password' id='password' name='password' required>"));
}

#[test]
fn apply_change_with_and_without_password() {
    let mut store = StateStore::new();
    let r = apply_state_change(&mut store, State::Active, false);
    assert_eq!(r.status, Status::Unauthorized);
    assert_eq!(r.body, "<html><body><h1>Unauthorized</h1></body></html>");
    assert_eq!(store.read(), State::Inactive);
    let r = apply_state_change(&mut store, State::Active, true);
    assert_eq!(r.status, Status::Success);
    assert_eq!(r.content, ContentKind::Html);
    assert_eq!(r.body, "<html><body><h1>State updated to Active</h1></body></html>");
    assert_eq!(store.read(), State::Active);
}

#[test]
fn set_state_checks_password() {
    let h = hash_of("s3cret");
    let mut store = StateStore::new();
    let r = set_state(&mut store, State::Active, "s3cret", &h);
    assert_eq!(r.status.code(), 200);
    assert_eq!(store.read(), State::Active);
    let r = set_state(&mut store, State::Inactive, "wrong", &h);
    assert_eq!(r.status.code(), 401);
    assert_eq!(store.read(), State::Active);
    let r = set_state(&mut store, State::Inactive, "s3cret", "garbage");
    assert_eq!(r.status.code(), 401);
    assert_eq!(store.read(), State::Active);
}

#[test]
fn session_change_needs_identity() {
    let mut store = StateStore::new();
    let r = set_state_for_session(&mut store, &None, State::Active);
    assert_eq!(r.status, Status::Unauthorized);
    assert_eq!(r.content, ContentKind::PlainText);
    assert_eq!(r.body, "Unauthorized");
    assert_eq!(store.read(), State::Inactive);
    let r = set_state_for_session(&mut store, &Some("admin".to_string()), State::Active);
    assert_eq!(r.status, Status::Success);
    assert_eq!(r.body, "State updated to Active");
    assert_eq!(store.read(), State::Active);
}

#[test]
fn login_decision_needs_admin_and_password() {
    let ok = login_decision("admin", true);
    assert_eq!(ok.reply.status, Status::Success);
    assert_eq!(ok.reply.body, "Logged in");
    assert_eq!(ok.remember, Some("admin".to_string()));
    let bad = login_decision("admin", false);
    assert_eq!(bad.reply.status, Status::Unauthorized);
    assert_eq!(bad.reply.body, "Incorrect username or password");
    assert_eq!(bad.remember, None);
    let other = login_decision("root", true);
    assert_eq!(other.reply.status, Status::Unauthorized);
    assert_eq!(other.remember, None);
}

#[test]
fn login_session_gates_changes() {
    let h = hash_of("s3cret");
    let mut store = StateStore::new();
    let ok = login("admin", "s3cret", &h);
    assert_eq!(ok.reply.status.code(), 200);
    assert_eq!(ok.reply.content, ContentKind::PlainText);
    let r = set_state_for_session(&mut store, &ok.remember, State::Active);
    assert_eq!(r.status.code(), 200);
    assert_eq!(store.read(), State::Active);

    let wrong_password = login("admin", "nope", &h);
    assert_eq!(wrong_password.reply.status.code(), 401);
    assert_eq!(wrong_password.reply.body, "Incorrect username or password");
    let r = set_state_for_session(&mut store, &wrong_password.remember, State::Inactive);
    assert_eq!(r.status.code(), 401);
    assert_eq!(store.read(), State::Active);

    let wrong_user = login("guest", "s3cret", &h);
    assert_eq!(wrong_user.reply.status.code(), 401);
    let r = set_state_for_session(&mut store, &wrong_user.remember, State::Inactive);
    assert_eq!(r.status.code(), 401);
    assert_eq!(store.read(), State::Active);
}

#[test]
fn form_scenario_from_start() {
    let h = hash_of("correct horse");
    let mut store = StateStore::new();
    let page = get_state(&store);
    assert!(page.body.contains("Inactive"));
    assert!(page.body.contains("coral"));

    let r = set_state(&mut store, State::Active, "correct horse", &h);
    assert_eq!(r.status.code(), 200);
    assert!(r.body.contains("Active"));

    let page = get_state(&store);
    assert!(page.body.contains("Active"));
    assert!(page.body.contains("lightgreen"));

    let r = set_state(&mut store, State::Inactive, "battery staple", &h);
    assert_eq!(r.status.code(), 401);
    assert_eq!(store.read(), State::Active);
    assert!(get_state(&store).body.contains("lightgreen"));
}
