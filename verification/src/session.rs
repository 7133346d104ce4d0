//! Session store decisions: the presence of the session file is the sole
//! signal for skipping the interactive login, and a stored cookie is replayed
//! into the browser context as a plain record.

use vstd::prelude::*;

verus! {

/// A cookie as the session file stores it.
pub struct SessionCookie {
    pub name: String,
    pub value: String,
    pub domain: Option<String>,
    pub path: Option<String>,
    pub expiry: Option<u64>,
    pub secure: bool,
    pub http_only: Option<bool>,
}

/// A cookie as the browser context accepts it for replay: the expiry turns
/// signed, the secure flag becomes explicit, and the http-only flag is not
/// carried over.
pub struct ReplayCookie {
    pub name: String,
    pub value: String,
    pub domain: Option<String>,
    pub path: Option<String>,
    pub expiry: Option<i64>,
    pub secure: Option<bool>,
}

/// Convert a stored cookie into the record replayed into the browser.
pub fn to_replay(cookie: SessionCookie) -> (r: ReplayCookie)
    requires
        cookie.expiry matches Some(e) ==> e <= i64::MAX as u64,
    ensures
        r.name == cookie.name,
        r.value == cookie.value,
        r.domain == cookie.domain,
        r.path == cookie.path,
        r.secure == Some(cookie.secure),
        cookie.expiry matches Some(e) ==> r.expiry == Some(e as i64),
        cookie.expiry is None ==> r.expiry is None,
{
    let expiry = match cookie.expiry {
        Some(e) => Some(e as i64),
        None => None,
    };
    ReplayCookie {
        name: cookie.name,
        value: cookie.value,
        domain: cookie.domain,
        path: cookie.path,
        expiry,
        secure: Some(cookie.secure),
    }
}

/// One step of the session bootstrap that runs before any authenticated
/// navigation.
#[derive(Clone, Copy, PartialEq, Eq, Structural, Debug)]
pub enum SessionAction {
    /// Replay the stored session into the browser context.
    LoadSession,
    /// Run the interactive login.
    InteractiveLogin,
    /// Read the cookie jar and persist it.
    SaveSession,
}

/// The bootstrap sequence: resume from the stored session when the file
/// exists, otherwise log in interactively and save the fresh session once.
pub open spec fn bootstrap_plan_spec(session_file_exists: bool) -> Seq<SessionAction> {
    if session_file_exists {
        seq![SessionAction::LoadSession]
    } else {
        seq![SessionAction::InteractiveLogin, SessionAction::SaveSession]
    }
}

/// Decide the bootstrap sequence from the session-file presence check.
pub fn bootstrap_plan(session_file_exists: bool) -> (r: Vec<SessionAction>)
    ensures
        r@ == bootstrap_plan_spec(session_file_exists),
{
    let mut plan: Vec<SessionAction> = Vec::new();
    if session_file_exists {
        plan.push(SessionAction::LoadSession);
    } else {
        plan.push(SessionAction::InteractiveLogin);
        plan.push(SessionAction::SaveSession);
    }
    proof {
        assert(plan@ =~= bootstrap_plan_spec(session_file_exists));
    }
    plan
}

/// Law: the session file gates the login. The plan replays the stored
/// session exactly when the file exists; otherwise it runs the interactive
/// login and then saves the fresh session, exactly once and only after the
/// login.
pub proof fn lemma_session_file_gates_login(session_file_exists: bool)
    ensures
        bootstrap_plan_spec(session_file_exists).contains(SessionAction::LoadSession)
            <==> session_file_exists,
        bootstrap_plan_spec(session_file_exists).contains(SessionAction::InteractiveLogin)
            <==> !session_file_exists,
        bootstrap_plan_spec(session_file_exists).contains(SessionAction::SaveSession)
            <==> !session_file_exists,
        session_file_exists ==> bootstrap_plan_spec(session_file_exists) =~= seq![
            SessionAction::LoadSession,
        ],
        !session_file_exists ==> bootstrap_plan_spec(session_file_exists) =~= seq![
            SessionAction::InteractiveLogin,
            SessionAction::SaveSession,
        ],
{
    let p = bootstrap_plan_spec(session_file_exists);
    if session_file_exists {
        assert(p[0] == SessionAction::LoadSession);
        assert(p.contains(SessionAction::LoadSession));
    } else {
        assert(p[0] == SessionAction::InteractiveLogin);
        assert(p[1] == SessionAction::SaveSession);
        assert(p.contains(SessionAction::InteractiveLogin));
        assert(p.contains(SessionAction::SaveSession));
    }
}

} // verus!
