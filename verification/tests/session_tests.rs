use easy_apply::session::{bootstrap_plan, to_replay, SessionAction, SessionCookie};

#[test]
fn existing_session_file_skips_login() {
    let plan = bootstrap_plan(true);
    assert_eq!(plan, vec![SessionAction::LoadSession]);
    assert!(!plan.contains(&SessionAction::InteractiveLogin));
    assert!(!plan.contains(&SessionAction::SaveSession));
}

#[test]
fn missing_session_file_logs_in_then_saves_once() {
    let plan = bootstrap_plan(false);
    assert_eq!(plan, vec![SessionAction::InteractiveLogin, SessionAction::SaveSession]);
    assert_eq!(plan.iter().filter(|a| **a == SessionAction::SaveSession).count(), 1);
    assert!(!plan.contains(&SessionAction::LoadSession));
}

#[test]
fn replay_cookie_keeps_fields_and_signs_expiry() {
    let cookie = SessionCookie {
        name: "sid".to_owned(),
        value: "session-token".to_owned(),
        domain: Some(".dice.com".to_owned()),
        path: Some("/".to_owned()),
        expiry: Some(1_700_000_000),
        secure: true,
        http_only: Some(true),
    };
    let replay = to_replay(cookie);
    assert_eq!(replay.name, "sid");
    assert_eq!(replay.value, "session-token");
    assert_eq!(replay.domain.as_deref(), Some(".dice.com"));
    assert_eq!(replay.path.as_deref(), Some("/"));
    assert_eq!(replay.expiry, Some(1_700_000_000));
    assert_eq!(replay.secure, Some(true));
}

#[test]
fn replay_cookie_without_expiry() {
    let cookie = SessionCookie {
        name: "a".to_owned(),
        value: "b".to_owned(),
        domain: None,
        path: None,
        expiry: None,
        secure: false,
        http_only: None,
    };
    let replay = to_replay(cookie);
    assert_eq!(replay.expiry, None);
    assert_eq!(replay.secure, Some(false));
}
